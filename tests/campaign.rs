use crowdfunding::address::{derive_address, Key};
use crowdfunding::error::CampaignError;
use crowdfunding::instructions::{create, donate, withdraw};
use crowdfunding::processor::process_instruction;
use crowdfunding::state::{CampaignAccount, Create, Donate, UserAccount, Withdraw};
use crowdfunding::codec::CampaignInstruction;

const TAG: &[u8] = b"CAMPAIGN_DEMO";
const RESERVE: u64 = (128 + 9000) * 6960;
const START: u64 = 10_000_000_000;

fn program() -> Key {
    [7u8; 32]
}

fn owner_a() -> Key {
    [1u8; 32]
}

fn donor_b() -> Key {
    [2u8; 32]
}

fn campaign_key(name: &str) -> (Key, u8) {
    derive_address(TAG, &owner_a(), name.as_bytes(), &program()).unwrap()
}

fn created(name: &str, description: &str) -> CampaignAccount {
    let (key, _) = campaign_key(name);
    let mut ctx = Create {
        program_id: program(),
        campaign: CampaignAccount { key, lamports: 0, data: None },
        user: UserAccount { key: owner_a(), lamports: START },
    };
    create(&mut ctx, name.to_string(), description.to_string()).unwrap();
    ctx.campaign
}

fn donate_ctx(campaign: CampaignAccount, who: Key, lamports: u64) -> Donate {
    Donate { program_id: program(), campaign, user: UserAccount { key: who, lamports } }
}

fn withdraw_ctx(campaign: CampaignAccount, who: Key, lamports: u64) -> Withdraw {
    Withdraw { program_id: program(), campaign, user: UserAccount { key: who, lamports } }
}

fn funded() -> CampaignAccount {
    let mut ctx = donate_ctx(created("Help", "desc"), donor_b(), 1000);
    donate(&mut ctx, 100).unwrap();
    ctx.campaign
}

#[test]
fn create_sets_owner_and_zero_total() {
    let (key, nonce) = campaign_key("Help");
    let mut ctx = Create {
        program_id: program(),
        campaign: CampaignAccount { key, lamports: 0, data: None },
        user: UserAccount { key: owner_a(), lamports: START },
    };
    assert_eq!(create(&mut ctx, "Help".to_string(), "desc".to_string()), Ok(()));
    let rec = ctx.campaign.data.as_ref().unwrap();
    assert_eq!(rec.admin, owner_a());
    assert_eq!(rec.name, "Help");
    assert_eq!(rec.description, "desc");
    assert_eq!(rec.amount_donated, 0);
    assert_eq!(rec.bump, nonce);
    assert_eq!(ctx.campaign.lamports, RESERVE);
    assert_eq!(ctx.user.lamports, START - RESERVE);
}

#[test]
fn create_twice_is_already_initialized() {
    let campaign = created("Help", "desc");
    let mut ctx = Create { program_id: program(), campaign, user: UserAccount { key: owner_a(), lamports: START } };
    assert_eq!(create(&mut ctx, "Help".to_string(), "other".to_string()), Err(CampaignError::AlreadyInitialized));
    assert_eq!(ctx.campaign.data.unwrap().description, "desc");
    assert_eq!(ctx.user.lamports, START);
}

#[test]
fn create_at_wrong_address_is_rejected() {
    let (key, _) = campaign_key("Other");
    let mut ctx = Create {
        program_id: program(),
        campaign: CampaignAccount { key, lamports: 0, data: None },
        user: UserAccount { key: owner_a(), lamports: START },
    };
    assert_eq!(create(&mut ctx, "Help".to_string(), "desc".to_string()), Err(CampaignError::AddressMismatch));
    assert!(ctx.campaign.data.is_none());
    assert_eq!(ctx.user.lamports, START);
}

#[test]
fn create_with_oversized_text_exceeds_space() {
    let (key, _) = campaign_key("Help");
    let fits = "d".repeat(9000 - 57 - 4);
    let mut ctx = Create {
        program_id: program(),
        campaign: CampaignAccount { key, lamports: 0, data: None },
        user: UserAccount { key: owner_a(), lamports: START },
    };
    assert_eq!(create(&mut ctx, "Help".to_string(), format!("{}d", fits)), Err(CampaignError::SpaceExceeded));
    assert!(ctx.campaign.data.is_none());
    assert_eq!(create(&mut ctx, "Help".to_string(), fits), Ok(()));
}

#[test]
fn create_without_funds_fails_transfer() {
    let (key, _) = campaign_key("Help");
    let mut ctx = Create {
        program_id: program(),
        campaign: CampaignAccount { key, lamports: 0, data: None },
        user: UserAccount { key: owner_a(), lamports: RESERVE - 1 },
    };
    assert_eq!(create(&mut ctx, "Help".to_string(), "desc".to_string()), Err(CampaignError::TransferFailed));
    assert_eq!(ctx.user.lamports, RESERVE - 1);
    assert!(ctx.campaign.data.is_none());
}

#[test]
fn create_tops_up_a_prefunded_account() {
    let (key, _) = campaign_key("Help");
    let mut ctx = Create {
        program_id: program(),
        campaign: CampaignAccount { key, lamports: 1000, data: None },
        user: UserAccount { key: owner_a(), lamports: START },
    };
    assert_eq!(create(&mut ctx, "Help".to_string(), "desc".to_string()), Ok(()));
    assert_eq!(ctx.campaign.lamports, RESERVE);
    assert_eq!(ctx.user.lamports, START - (RESERVE - 1000));
}

#[test]
fn donate_moves_value_and_counts() {
    let mut ctx = donate_ctx(created("Help", "desc"), donor_b(), 1000);
    assert_eq!(donate(&mut ctx, 100), Ok(()));
    assert_eq!(ctx.campaign.data.as_ref().unwrap().amount_donated, 100);
    assert_eq!(ctx.user.lamports, 900);
    assert_eq!(ctx.campaign.lamports, RESERVE + 100);
}

#[test]
fn donations_add_up() {
    let mut campaign = created("Help", "desc");
    let amounts = [5u64, 0, 40, 1000];
    for (i, amount) in amounts.iter().enumerate() {
        let mut ctx = donate_ctx(campaign, [10 + i as u8; 32], 5000);
        assert_eq!(donate(&mut ctx, *amount), Ok(()));
        campaign = ctx.campaign;
    }
    assert_eq!(campaign.data.unwrap().amount_donated, 1045);
    assert_eq!(campaign.lamports, RESERVE + 1045);
}

#[test]
fn donate_beyond_balance_fails_transfer() {
    let mut ctx = donate_ctx(created("Help", "desc"), donor_b(), 99);
    assert_eq!(donate(&mut ctx, 100), Err(CampaignError::TransferFailed));
    assert_eq!(ctx.user.lamports, 99);
    assert_eq!(ctx.campaign.lamports, RESERVE);
    assert_eq!(ctx.campaign.data.unwrap().amount_donated, 0);
}

#[test]
fn donate_overflow_is_rejected() {
    let mut campaign = created("Help", "desc");
    campaign.data.as_mut().unwrap().amount_donated = u64::MAX - 10;
    let mut ctx = donate_ctx(campaign, donor_b(), 1000);
    assert_eq!(donate(&mut ctx, 11), Err(CampaignError::Overflow));
    assert_eq!(ctx.user.lamports, 1000);
    assert_eq!(ctx.campaign.data.as_ref().unwrap().amount_donated, u64::MAX - 10);
    assert_eq!(donate(&mut ctx, 10), Ok(()));
    assert_eq!(ctx.campaign.data.unwrap().amount_donated, u64::MAX);
}

#[test]
fn donate_to_missing_record_fails() {
    let (key, _) = campaign_key("Help");
    let mut ctx = donate_ctx(CampaignAccount { key, lamports: 0, data: None }, donor_b(), 1000);
    assert_eq!(donate(&mut ctx, 1), Err(CampaignError::NotInitialized));
}

#[test]
fn donate_at_moved_address_fails() {
    let mut campaign = created("Help", "desc");
    campaign.key = [9u8; 32];
    let mut ctx = donate_ctx(campaign, donor_b(), 1000);
    assert_eq!(donate(&mut ctx, 1), Err(CampaignError::AddressMismatch));
    assert_eq!(ctx.user.lamports, 1000);
}

#[test]
fn owner_withdraws_and_total_stays() {
    let mut ctx = withdraw_ctx(funded(), owner_a(), 0);
    assert_eq!(withdraw(&mut ctx, 50), Ok(()));
    assert_eq!(ctx.campaign.lamports, RESERVE + 50);
    assert_eq!(ctx.user.lamports, 50);
    assert_eq!(ctx.campaign.data.unwrap().amount_donated, 100);
}

#[test]
fn non_owner_withdraw_is_unauthorized() {
    let mut ctx = withdraw_ctx(funded(), donor_b(), 900);
    assert_eq!(withdraw(&mut ctx, 50), Err(CampaignError::Unauthorized));
    assert_eq!(ctx.campaign.lamports, RESERVE + 100);
    assert_eq!(ctx.user.lamports, 900);
    assert_eq!(ctx.campaign.data.as_ref().unwrap().amount_donated, 100);
    for amount in [0u64, 1, 100, u64::MAX] {
        assert_eq!(withdraw(&mut ctx, amount), Err(CampaignError::Unauthorized));
    }
    assert_eq!(ctx.campaign.lamports, RESERVE + 100);
}

#[test]
fn withdraw_beyond_withdrawable_is_insufficient() {
    let mut ctx = withdraw_ctx(funded(), owner_a(), 0);
    assert_eq!(withdraw(&mut ctx, 101), Err(CampaignError::InsufficientFunds));
    assert_eq!(ctx.campaign.lamports, RESERVE + 100);
    assert_eq!(ctx.user.lamports, 0);
    assert_eq!(withdraw(&mut ctx, 100), Ok(()));
    assert_eq!(ctx.campaign.lamports, RESERVE);
    assert_eq!(withdraw(&mut ctx, 1), Err(CampaignError::InsufficientFunds));
    assert_eq!(ctx.campaign.lamports, RESERVE);
}

#[test]
fn withdraw_below_reserve_account_is_insufficient() {
    let mut campaign = funded();
    campaign.lamports = RESERVE - 5;
    let mut ctx = withdraw_ctx(campaign, owner_a(), 0);
    assert_eq!(withdraw(&mut ctx, 0), Err(CampaignError::InsufficientFunds));
}

#[test]
fn withdraw_overflowing_owner_balance() {
    let mut ctx = withdraw_ctx(funded(), owner_a(), u64::MAX - 10);
    assert_eq!(withdraw(&mut ctx, 11), Err(CampaignError::Overflow));
    assert_eq!(ctx.campaign.lamports, RESERVE + 100);
}

#[test]
fn process_runs_encoded_requests() {
    let (key, _) = campaign_key("Help");
    let data = CampaignInstruction::Create { name: "Help".to_string(), description: "desc".to_string() }.encode();
    let (campaign, user, r) = process_instruction(
        program(),
        CampaignAccount { key, lamports: 0, data: None },
        UserAccount { key: owner_a(), lamports: START },
        &data,
    );
    assert_eq!(r, Ok(()));
    assert_eq!(user.lamports, START - RESERVE);
    let data = CampaignInstruction::Donate { amount: 100 }.encode();
    let (campaign, donor, r) = process_instruction(program(), campaign, UserAccount { key: donor_b(), lamports: 500 }, &data);
    assert_eq!(r, Ok(()));
    assert_eq!(donor.lamports, 400);
    let data = CampaignInstruction::Withdraw { amount: 50 }.encode();
    let (campaign, _, r) = process_instruction(program(), campaign, UserAccount { key: donor_b(), lamports: 400 }, &data);
    assert_eq!(r, Err(CampaignError::Unauthorized));
    let (campaign, owner, r) = process_instruction(program(), campaign, UserAccount { key: owner_a(), lamports: 0 }, &data);
    assert_eq!(r, Ok(()));
    assert_eq!(owner.lamports, 50);
    assert_eq!(campaign.lamports, RESERVE + 50);
    assert_eq!(campaign.data.unwrap().amount_donated, 100);
}

#[test]
fn process_rejects_unknown_request_unchanged() {
    let campaign = funded();
    let (campaign, user, r) = process_instruction(program(), campaign, UserAccount { key: owner_a(), lamports: 3 }, &[0u8; 16]);
    assert_eq!(r, Err(CampaignError::UnknownInstruction));
    assert_eq!(user.lamports, 3);
    assert_eq!(campaign.lamports, RESERVE + 100);
}
