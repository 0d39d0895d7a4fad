use vstd::prelude::*;

verus! {

/// Every way a campaign transition or an instruction decode can be rejected.
#[derive(Clone, Copy, Debug, PartialEq, Eq, Structural)]
pub enum CampaignError {
    /// The requester is not the campaign's owner.
    Unauthorized,
    /// The campaign does not hold enough above its reserved minimum.
    InsufficientFunds,
    /// A counter or a balance would leave the 64-bit range.
    Overflow,
    /// The campaign address already holds a record.
    AlreadyInitialized,
    /// The campaign address holds no record yet.
    NotInitialized,
    /// The name and description do not fit in the record's space.
    SpaceExceeded,
    /// The leading eight bytes name no known instruction.
    UnknownInstruction,
    /// The instruction payload is truncated, too long or not valid text.
    MalformedPayload,
    /// The account address is not the one derived from the record's seeds.
    AddressMismatch,
    /// The ledger could not move the value out of the payer's balance.
    TransferFailed,
}

/// First numbered error code of this program.
pub const ERROR_CODE_OFFSET: u32 = 6000;

impl CampaignError {
    pub open spec fn code_spec(&self) -> Option<u32> {
        match self {
            CampaignError::Unauthorized => Some(ERROR_CODE_OFFSET),
            CampaignError::InsufficientFunds => Some((ERROR_CODE_OFFSET + 1) as u32),
            _ => None,
        }
    }

    /// The stable numeric code of an error, where it has one.
    pub fn code(&self) -> (r: Option<u32>)
        ensures
            r == self.code_spec(),
    {
        match self {
            CampaignError::Unauthorized => Some(ERROR_CODE_OFFSET),
            CampaignError::InsufficientFunds => Some(ERROR_CODE_OFFSET + 1),
            _ => None,
        }
    }
}

} // verus!
