use crate::address::{address_at, derive_address, derive_spec, keys_equal, verify_address, Key};
use crate::error::CampaignError;
use crate::state::{
    campaign_tag, campaign_tag_bytes, minimum_balance, record_size, reserved_minimum, Campaign,
    CampaignAccount, Create, Donate, UserAccount, Withdraw, RECORD_OVERHEAD, RECORD_SPACE,
};
use vstd::prelude::*;
use vstd::utf8::*;

verus! {

/// Whether `account` sits at the address derived from its record's owner,
/// name and stored nonce.
pub open spec fn address_matches(program_id: Key, account: CampaignAccount, rec: Campaign) -> bool {
    address_at(campaign_tag(), rec.admin@, encode_utf8(rec.name@), rec.bump, program_id@)
        == Some(account.key@)
}

/// Lamports the creator moves into a new campaign account so that it holds
/// its reserved minimum.
pub open spec fn creation_top_up(lamports: u64) -> int {
    let need = reserved_minimum(RECORD_SPACE as int);
    if lamports >= need {
        0
    } else {
        need - lamports
    }
}

/// Create: the accounts after the request, and its outcome.
pub open spec fn create_spec(pre: Create, name: String, description: String) -> (Create, Result<(), CampaignError>) {
    let derived = derive_spec(campaign_tag(), pre.user.key@, encode_utf8(name@), pre.program_id@);
    if pre.campaign.data is Some {
        (pre, Err(CampaignError::AlreadyInitialized))
    } else if !(derived matches Some((a, _)) && a == pre.campaign.key@) {
        (pre, Err(CampaignError::AddressMismatch))
    } else if record_size(name@, description@) > RECORD_SPACE {
        (pre, Err(CampaignError::SpaceExceeded))
    } else if pre.user.lamports < creation_top_up(pre.campaign.lamports) {
        (pre, Err(CampaignError::TransferFailed))
    } else {
        let top_up = creation_top_up(pre.campaign.lamports);
        let record = Campaign {
            admin: pre.user.key,
            name,
            description,
            amount_donated: 0,
            bump: match derived {
                Some((_, n)) => n,
                None => 0,
            },
        };
        (
            Create {
                program_id: pre.program_id,
                campaign: CampaignAccount {
                    key: pre.campaign.key,
                    lamports: (pre.campaign.lamports + top_up) as u64,
                    data: Some(record),
                },
                user: UserAccount { key: pre.user.key, lamports: (pre.user.lamports - top_up) as u64 },
            },
            Ok(()),
        )
    }
}

/// Donate: the accounts after the request, and its outcome.
#[verifier::opaque]
pub open spec fn donate_spec(pre: Donate, amount: u64) -> (Donate, Result<(), CampaignError>) {
    match pre.campaign.data {
        None => (pre, Err(CampaignError::NotInitialized)),
        Some(rec) => if !address_matches(pre.program_id, pre.campaign, rec) {
            (pre, Err(CampaignError::AddressMismatch))
        } else if rec.amount_donated + amount > u64::MAX || pre.campaign.lamports + amount > u64::MAX {
            (pre, Err(CampaignError::Overflow))
        } else if pre.user.lamports < amount {
            (pre, Err(CampaignError::TransferFailed))
        } else {
            (
                Donate {
                    program_id: pre.program_id,
                    campaign: CampaignAccount {
                        key: pre.campaign.key,
                        lamports: (pre.campaign.lamports + amount) as u64,
                        data: Some(
                            Campaign {
                                admin: rec.admin,
                                name: rec.name,
                                description: rec.description,
                                amount_donated: (rec.amount_donated + amount) as u64,
                                bump: rec.bump,
                            },
                        ),
                    },
                    user: UserAccount { key: pre.user.key, lamports: (pre.user.lamports - amount) as u64 },
                },
                Ok(()),
            )
        },
    }
}

/// Withdraw: the accounts after the request, and its outcome. The owner
/// check comes before any look at the balance.
pub open spec fn withdraw_spec(pre: Withdraw, amount: u64) -> (Withdraw, Result<(), CampaignError>) {
    match pre.campaign.data {
        None => (pre, Err(CampaignError::NotInitialized)),
        Some(rec) => if !address_matches(pre.program_id, pre.campaign, rec) {
            (pre, Err(CampaignError::AddressMismatch))
        } else if pre.user.key@ != rec.admin@ {
            (pre, Err(CampaignError::Unauthorized))
        } else if amount > pre.campaign.lamports - reserved_minimum(RECORD_SPACE as int) {
            (pre, Err(CampaignError::InsufficientFunds))
        } else if pre.user.lamports + amount > u64::MAX {
            (pre, Err(CampaignError::Overflow))
        } else {
            (
                Withdraw {
                    program_id: pre.program_id,
                    campaign: CampaignAccount {
                        key: pre.campaign.key,
                        lamports: (pre.campaign.lamports - amount) as u64,
                        data: pre.campaign.data,
                    },
                    user: UserAccount { key: pre.user.key, lamports: (pre.user.lamports + amount) as u64 },
                },
                Ok(()),
            )
        },
    }
}

/// A requester who is not the owner of a well-placed campaign can never
/// withdraw: whatever the amount, Withdraw fails with `Unauthorized` and
/// every balance and the record stay as they were.
pub proof fn lemma_non_owner_cannot_withdraw(pre: Withdraw, amount: u64)
    requires
        pre.campaign.data is Some,
        address_matches(pre.program_id, pre.campaign, pre.campaign.data->0),
        pre.user.key@ != pre.campaign.data->0.admin@,
    ensures
        withdraw_spec(pre, amount) == (pre, Err::<(), CampaignError>(CampaignError::Unauthorized)),
{
}

/// The lifetime donation total of a campaign account, zero before creation.
pub open spec fn donated_total(account: CampaignAccount) -> int {
    match account.data {
        Some(rec) => rec.amount_donated as int,
        None => 0,
    }
}

/// The sum of a list of amounts.
pub open spec fn sum_of(amounts: Seq<u64>) -> int
    decreases amounts.len(),
{
    if amounts.len() == 0 {
        0
    } else {
        sum_of(amounts.drop_last()) + amounts.last()
    }
}

proof fn lemma_donation_step(pre: Donate, amount: u64)
    requires
        donate_spec(pre, amount).1 is Ok,
    ensures
        donated_total(donate_spec(pre, amount).0.campaign) == donated_total(pre.campaign) + amount,
{
    reveal(donate_spec);
}

/// Over a run of successful donations to one campaign account, each made on
/// the account as the one before left it (by any donors), the lifetime total
/// grows by exactly the sum of the amounts, and no step lowers it.
pub proof fn lemma_donations_accumulate(calls: Seq<Donate>, amounts: Seq<u64>)
    requires
        calls.len() == amounts.len(),
        calls.len() > 0,
        forall|i: int| 0 <= i < calls.len() ==> (#[trigger] donate_spec(calls[i], amounts[i])).1 is Ok,
        forall|i: int|
            0 < i < calls.len() ==> (#[trigger] calls[i]).campaign == donate_spec(calls[i - 1], amounts[i - 1]).0.campaign,
    ensures
        donated_total(donate_spec(calls.last(), amounts.last()).0.campaign) == donated_total(calls[0].campaign)
            + sum_of(amounts),
        forall|i: int|
            0 <= i < calls.len() ==> donated_total(#[trigger] donate_spec(calls[i], amounts[i]).0.campaign)
                >= donated_total(calls[i].campaign),
    decreases calls.len(),
{
    let n = calls.len() as int;
    assert forall|i: int| 0 <= i < n implies donated_total(#[trigger] donate_spec(calls[i], amounts[i]).0.campaign)
        == donated_total(calls[i].campaign) + amounts[i] by {
        lemma_donation_step(calls[i], amounts[i]);
    }
    if n > 1 {
        let c = calls.drop_last();
        let a = amounts.drop_last();
        assert forall|i: int| 0 <= i < c.len() implies (#[trigger] donate_spec(c[i], a[i])).1 is Ok by {
            assert(c[i] == calls[i] && a[i] == amounts[i]);
            assert(donate_spec(calls[i], amounts[i]).1 is Ok);
        }
        assert forall|i: int| 0 < i < c.len() implies (#[trigger] c[i]).campaign == donate_spec(c[i - 1], a[i - 1]).0.campaign by {
            assert(calls[i].campaign == donate_spec(calls[i - 1], amounts[i - 1]).0.campaign);
        }
        lemma_donations_accumulate(c, a);
        assert(calls[n - 1].campaign == donate_spec(calls[n - 2], amounts[n - 2]).0.campaign);
        assert(c.last() == calls[n - 2] && a.last() == amounts[n - 2]);
        assert(c[0] == calls[0]);
        let before_last = donated_total(donate_spec(calls[n - 2], amounts[n - 2]).0.campaign);
        assert(donated_total(calls[n - 1].campaign) == before_last);
        assert(donated_total(donate_spec(calls[n - 1], amounts[n - 1]).0.campaign) == before_last + amounts[n - 1]);
        assert(sum_of(amounts) == sum_of(a) + amounts[n - 1]);
    } else {
        assert(sum_of(amounts.drop_last()) == 0);
        assert(sum_of(amounts) == amounts[0]);
        assert(donated_total(donate_spec(calls[0], amounts[0]).0.campaign) == donated_total(calls[0].campaign) + amounts[0]);
    }
}

/// Creates the campaign `name` at the account derived from the requester's
/// key and `name`; the requester becomes its owner and pays its reserved
/// minimum.
pub fn create(ctx: &mut Create, name: String, description: String) -> (r: Result<(), CampaignError>)
    ensures
        (*final(ctx), r) == create_spec(*old(ctx), name, description),
        r is Err ==> *final(ctx) == *old(ctx),
        r is Ok ==> final(ctx).campaign.data == Some(
            Campaign {
                admin: old(ctx).user.key,
                name,
                description,
                amount_donated: 0,
                bump: final(ctx).campaign.data->0.bump,
            },
        ),
{
    if ctx.campaign.data.is_some() {
        return Err(CampaignError::AlreadyInitialized);
    }
    let tag = campaign_tag_bytes();
    let bump = match derive_address(tag.as_slice(), &ctx.user.key, name.as_str().as_bytes(), &ctx.program_id) {
        Some((a, n)) => {
            if !keys_equal(&a, &ctx.campaign.key) {
                return Err(CampaignError::AddressMismatch);
            }
            n
        },
        None => {
            return Err(CampaignError::AddressMismatch);
        },
    };
    let name_len = name.as_str().as_bytes().len();
    let description_len = description.as_str().as_bytes().len();
    if name_len > RECORD_SPACE || description_len > RECORD_SPACE || RECORD_OVERHEAD + name_len
        + description_len > RECORD_SPACE {
        return Err(CampaignError::SpaceExceeded);
    }
    let need = minimum_balance(RECORD_SPACE);
    let top_up = if ctx.campaign.lamports >= need {
        0
    } else {
        need - ctx.campaign.lamports
    };
    if ctx.user.lamports < top_up {
        return Err(CampaignError::TransferFailed);
    }
    ctx.user.lamports = ctx.user.lamports - top_up;
    ctx.campaign.lamports = ctx.campaign.lamports + top_up;
    ctx.campaign.data = Some(
        Campaign { admin: ctx.user.key, name, description, amount_donated: 0, bump },
    );
    Ok(())
}

/// Moves `amount` from the donor's balance into the campaign account and adds
/// it to the campaign's lifetime total, both or neither. Anyone may donate.
pub fn donate(ctx: &mut Donate, amount: u64) -> (r: Result<(), CampaignError>)
    ensures
        (*final(ctx), r) == donate_spec(*old(ctx), amount),
        r is Err ==> *final(ctx) == *old(ctx),
        r is Ok ==> final(ctx).campaign.data->0.amount_donated == old(ctx).campaign.data->0.amount_donated
            + amount,
{
    proof {
        reveal(donate_spec);
    }
    let tag = campaign_tag_bytes();
    match &ctx.campaign.data {
        None => {
            return Err(CampaignError::NotInitialized);
        },
        Some(rec) => {
            if !verify_address(
                tag.as_slice(),
                &rec.admin,
                rec.name.as_str().as_bytes(),
                rec.bump,
                &ctx.program_id,
                &ctx.campaign.key,
            ) {
                return Err(CampaignError::AddressMismatch);
            }
            if rec.amount_donated > u64::MAX - amount || ctx.campaign.lamports > u64::MAX - amount {
                return Err(CampaignError::Overflow);
            }
        },
    }
    if ctx.user.lamports < amount {
        return Err(CampaignError::TransferFailed);
    }
    ctx.user.lamports = ctx.user.lamports - amount;
    ctx.campaign.lamports = ctx.campaign.lamports + amount;
    match &mut ctx.campaign.data {
        Some(rec) => {
            rec.amount_donated = rec.amount_donated + amount;
        },
        None => {},
    }
    Ok(())
}

/// Moves `amount` from the campaign account to its owner, keeping the
/// account's reserved minimum; the lifetime total is left as it is.
pub fn withdraw(ctx: &mut Withdraw, amount: u64) -> (r: Result<(), CampaignError>)
    ensures
        (*final(ctx), r) == withdraw_spec(*old(ctx), amount),
        r is Err ==> *final(ctx) == *old(ctx),
        r is Ok ==> final(ctx).campaign.lamports >= reserved_minimum(RECORD_SPACE as int),
{
    let tag = campaign_tag_bytes();
    match &ctx.campaign.data {
        None => {
            return Err(CampaignError::NotInitialized);
        },
        Some(rec) => {
            if !verify_address(
                tag.as_slice(),
                &rec.admin,
                rec.name.as_str().as_bytes(),
                rec.bump,
                &ctx.program_id,
                &ctx.campaign.key,
            ) {
                return Err(CampaignError::AddressMismatch);
            }
            if !keys_equal(&ctx.user.key, &rec.admin) {
                return Err(CampaignError::Unauthorized);
            }
        },
    }
    let reserve = minimum_balance(RECORD_SPACE);
    if ctx.campaign.lamports < reserve || ctx.campaign.lamports - reserve < amount {
        return Err(CampaignError::InsufficientFunds);
    }
    if ctx.user.lamports > u64::MAX - amount {
        return Err(CampaignError::Overflow);
    }
    ctx.campaign.lamports = ctx.campaign.lamports - amount;
    ctx.user.lamports = ctx.user.lamports + amount;
    Ok(())
}

} // verus!
