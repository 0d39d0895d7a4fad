use crate::address::Key;
use solana_program::rent::Rent;
use vstd::prelude::*;
use vstd::utf8::*;

verus! {

/// Bytes reserved for every campaign record.
pub const RECORD_SPACE: usize = 9000;

/// Bytes of a record besides its two texts: type tag, owner, two length
/// fields, the donation counter and the nonce.
pub const RECORD_OVERHEAD: usize = 57;

/// The largest account data the ledger allows.
pub const MAX_PERMITTED_DATA_LENGTH: usize = 10485760;

/// Bytes the ledger charges for on top of an account's data.
pub const ACCOUNT_STORAGE_OVERHEAD: u64 = 128;

/// Lamports an account of `data_len` bytes must keep to stay on the ledger.
pub open spec fn reserved_minimum(data_len: int) -> int {
    (ACCOUNT_STORAGE_OVERHEAD + data_len) * 3480 * 2
}

/// Relies on `Rent::minimum_balance` under `Rent::default()`: 3480 lamports
/// per byte-year over the data and `ACCOUNT_STORAGE_OVERHEAD`, times the
/// exemption threshold 2.0; below this bound the float steps are exact.
#[verifier::external_body]
pub(crate) fn minimum_balance(data_len: usize) -> (r: u64)
    requires
        data_len <= MAX_PERMITTED_DATA_LENGTH,
    ensures
        r == reserved_minimum(data_len as int),
{
    Rent::default().minimum_balance(data_len)
}

/// The record stored at a campaign's address.
#[derive(Debug)]
pub struct Campaign {
    /// The owner, who alone may withdraw.
    pub admin: Key,
    pub name: String,
    pub description: String,
    /// Lifetime sum of all donations; withdrawals leave it alone.
    pub amount_donated: u64,
    /// The nonce that derived the campaign's address.
    pub bump: u8,
}

/// The account at a campaign address: its balance and, once created, its record.
#[derive(Debug)]
pub struct CampaignAccount {
    pub key: Key,
    pub lamports: u64,
    pub data: Option<Campaign>,
}

/// The signing requester and its external balance.
#[derive(Debug)]
pub struct UserAccount {
    pub key: Key,
    pub lamports: u64,
}

/// The accounts of a Create request.
#[derive(Debug)]
pub struct Create {
    pub program_id: Key,
    pub campaign: CampaignAccount,
    pub user: UserAccount,
}

/// The accounts of a Withdraw request.
#[derive(Debug)]
pub struct Withdraw {
    pub program_id: Key,
    pub campaign: CampaignAccount,
    pub user: UserAccount,
}

/// The accounts of a Donate request.
#[derive(Debug)]
pub struct Donate {
    pub program_id: Key,
    pub campaign: CampaignAccount,
    pub user: UserAccount,
}

/// The seed tag of campaign addresses: `CAMPAIGN_DEMO`.
pub open spec fn campaign_tag() -> Seq<u8> {
    seq![0x43u8, 0x41, 0x4d, 0x50, 0x41, 0x49, 0x47, 0x4e, 0x5f, 0x44, 0x45, 0x4d, 0x4f]
}

/// The seed tag of campaign addresses.
pub fn campaign_tag_bytes() -> (r: Vec<u8>)
    ensures
        r@ == campaign_tag(),
{
    let r = vec![0x43u8, 0x41, 0x4d, 0x50, 0x41, 0x49, 0x47, 0x4e, 0x5f, 0x44, 0x45, 0x4d, 0x4f];
    assert(r@ =~= campaign_tag());
    r
}

/// The stored size of a record with these texts.
pub open spec fn record_size(name: Seq<char>, description: Seq<char>) -> int {
    RECORD_OVERHEAD + encode_utf8(name).len() + encode_utf8(description).len()
}

} // verus!
