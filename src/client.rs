use crate::address::{derive_address, derive_spec, derived_view, keys_equal, Key};
use crate::codec::{encodable, encode_spec, CampaignInstruction, InstructionModel};
use crate::state::{campaign_tag, campaign_tag_bytes};
use vstd::prelude::*;
use vstd::utf8::*;

verus! {

/// Data a program-owned account must hold to count as a campaign.
pub const MIN_CAMPAIGN_DATA: usize = 32;

/// What the client learned of an account by fetching it.
#[derive(Clone, Copy, Debug)]
pub struct FetchedAccount {
    pub owner: Key,
    pub data_len: usize,
    pub lamports: u64,
}

/// Where a campaign address stands, as the client sees it.
#[derive(Clone, Copy, Debug, PartialEq, Eq, Structural)]
pub enum CampaignStatus {
    /// No account exists at the address.
    Missing,
    /// Space was allocated but the program never initialized it.
    Uninitialized,
    /// The program owns the account and it holds campaign data.
    Initialized,
    /// The program owns the account but it holds too little data.
    Undersized,
    /// Another program owns the account.
    ForeignOwner,
}

/// A creation request as the client plans it.
#[derive(Debug)]
pub enum CreatePlan {
    /// A campaign already sits at the derived address: adopt it.
    UseExisting(Key),
    /// Send this request for a new campaign at this address.
    Submit { address: Key, data: Vec<u8> },
}

/// The system program's address, which owns accounts nobody initialized.
pub open spec fn system_program_key() -> Seq<u8> {
    Seq::new(32, |i: int| 0u8)
}

/// Relies on `solana_program::system_program::id`: the address
/// `11111111111111111111111111111111` in base58, that is 32 zero bytes.
#[verifier::external_body]
fn system_program_id() -> (r: Key)
    ensures
        r@ == system_program_key(),
{
    solana_program::system_program::id().to_bytes()
}

/// The client's own state: its program, its wallet's public key and the
/// campaign it works with.
#[derive(Debug)]
pub struct SolanaDApp {
    pub program_id: Key,
    pub wallet: Key,
    pub campaign_address: Option<Key>,
}

/// Whether a fetched account is an initialized campaign of `program_id`.
pub open spec fn is_campaign(account: Option<FetchedAccount>, program_id: Key) -> bool {
    account matches Some(a) && a.owner@ == program_id@ && a.data_len >= MIN_CAMPAIGN_DATA
}

/// The status of a fetched account.
pub open spec fn status_of(account: Option<FetchedAccount>, program_id: Key) -> CampaignStatus {
    match account {
        None => CampaignStatus::Missing,
        Some(a) => if a.owner@ == system_program_key() {
            CampaignStatus::Uninitialized
        } else if a.owner@ == program_id@ {
            if a.data_len >= MIN_CAMPAIGN_DATA {
                CampaignStatus::Initialized
            } else {
                CampaignStatus::Undersized
            }
        } else {
            CampaignStatus::ForeignOwner
        },
    }
}

impl SolanaDApp {
    /// A client for `program_id` with the wallet key `wallet`, working with a
    /// saved campaign if there is one.
    pub fn new(program_id: Key, wallet: Key, saved_campaign: Option<Key>) -> (r: SolanaDApp)
        ensures
            r.program_id == program_id,
            r.wallet == wallet,
            r.campaign_address == saved_campaign,
    {
        SolanaDApp { program_id, wallet, campaign_address: saved_campaign }
    }

    /// The address and nonce of this wallet's campaign `name`.
    pub fn create_campaign_pda(&self, name: &str) -> (r: Option<(Key, u8)>)
        ensures
            derived_view(r) == derive_spec(campaign_tag(), self.wallet@, encode_utf8(name@), self.program_id@),
    {
        let tag = campaign_tag_bytes();
        derive_address(tag.as_slice(), &self.wallet, name.as_bytes(), &self.program_id)
    }

    /// `address`, where the account fetched there is an initialized campaign.
    pub fn check_existing_campaign(&self, address: Key, account: Option<FetchedAccount>) -> (r: Option<Key>)
        ensures
            r == (if is_campaign(account, self.program_id) {
                Some(address)
            } else {
                None
            }),
    {
        match account {
            Some(a) => if keys_equal(&a.owner, &self.program_id) && a.data_len >= MIN_CAMPAIGN_DATA {
                Some(address)
            } else {
                None
            },
            None => None,
        }
    }

    /// Where the account fetched at a campaign address stands.
    pub fn check_campaign_status(&self, account: Option<FetchedAccount>) -> (r: CampaignStatus)
        ensures
            r == status_of(account, self.program_id),
    {
        match account {
            None => CampaignStatus::Missing,
            Some(a) => {
                let system = system_program_id();
                if keys_equal(&a.owner, &system) {
                    CampaignStatus::Uninitialized
                } else if keys_equal(&a.owner, &self.program_id) {
                    if a.data_len >= MIN_CAMPAIGN_DATA {
                        CampaignStatus::Initialized
                    } else {
                        CampaignStatus::Undersized
                    }
                } else {
                    CampaignStatus::ForeignOwner
                }
            },
        }
    }

    /// Plans the creation of the campaign `name`: an existing campaign found
    /// at the derived address is adopted, else a Create request for that
    /// address is built. `None` where the name gives no address.
    pub fn create_campaign(&mut self, existing: Option<Key>, name: String, description: String) -> (r: Option<CreatePlan>)
        requires
            encodable(InstructionModel::Create { name: name@, description: description@ }),
        ensures
            final(self).program_id == old(self).program_id,
            final(self).wallet == old(self).wallet,
            existing matches Some(k) ==> r == Some(CreatePlan::UseExisting(k)) && final(self).campaign_address == Some(k),
            existing is None ==> final(self).campaign_address == old(self).campaign_address,
            existing is None ==> match derive_spec(campaign_tag(), old(self).wallet@, encode_utf8(name@), old(self).program_id@) {
                None => r is None,
                Some((a, _)) => r matches Some(CreatePlan::Submit { address, data }) && address@ == a
                    && data@ == encode_spec(InstructionModel::Create { name: name@, description: description@ }),
            },
    {
        if let Some(k) = existing {
            self.campaign_address = Some(k);
            return Some(CreatePlan::UseExisting(k));
        }
        match self.create_campaign_pda(name.as_str()) {
            None => None,
            Some((address, _)) => {
                let ix = CampaignInstruction::Create { name, description };
                Some(CreatePlan::Submit { address, data: ix.encode() })
            },
        }
    }

    /// Records the address of a campaign the ledger confirmed.
    pub fn campaign_created(&mut self, address: Key)
        ensures
            final(self).campaign_address == Some(address),
            final(self).program_id == old(self).program_id,
            final(self).wallet == old(self).wallet,
    {
        self.campaign_address = Some(address);
    }

    /// The request that donates `amount` lamports.
    pub fn donate_to_campaign(&self, amount: u64) -> (r: Vec<u8>)
        ensures
            r@ == encode_spec(InstructionModel::Donate { amount }),
    {
        CampaignInstruction::Donate { amount }.encode()
    }

    /// The request that withdraws `amount` lamports.
    pub fn withdraw_from_campaign(&self, amount: u64) -> (r: Vec<u8>)
        ensures
            r@ == encode_spec(InstructionModel::Withdraw { amount }),
    {
        CampaignInstruction::Withdraw { amount }.encode()
    }
}

} // verus!
