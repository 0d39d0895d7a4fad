use crate::address::Key;
use crate::codec::{decode_spec, CampaignInstruction, InstructionModel};
use crate::error::CampaignError;
use crate::instructions::{create, create_spec, donate, donate_spec, withdraw, withdraw_spec};
use crate::state::{CampaignAccount, Create, Donate, UserAccount, Withdraw};
use vstd::prelude::*;

verus! {

/// The accounts and outcome after one raw request.
pub type Processed = (CampaignAccount, UserAccount, Result<(), CampaignError>);

/// Whether `r` is what processing the raw request `data` against the two
/// accounts gives: a request that does not decode changes nothing, and one
/// that does is applied as its transition says.
pub open spec fn processed(program_id: Key, campaign: CampaignAccount, user: UserAccount, data: Seq<u8>, r: Processed) -> bool {
    match decode_spec(data) {
        Err(e) => r == (campaign, user, Err::<(), CampaignError>(e)),
        Ok(InstructionModel::Create { name, description }) => exists|n: String, d: String|
            n@ == name && d@ == description && #[trigger] create_spec(
                Create { program_id, campaign, user },
                n,
                d,
            ) == (Create { program_id, campaign: r.0, user: r.1 }, r.2),
        Ok(InstructionModel::Donate { amount }) => donate_spec(Donate { program_id, campaign, user }, amount)
            == (Donate { program_id, campaign: r.0, user: r.1 }, r.2),
        Ok(InstructionModel::Withdraw { amount }) => withdraw_spec(
            Withdraw { program_id, campaign, user },
            amount,
        ) == (Withdraw { program_id, campaign: r.0, user: r.1 }, r.2),
    }
}

/// Decodes a raw request and applies it to the campaign account and the
/// requester's account, all or nothing.
pub fn process_instruction(program_id: Key, campaign: CampaignAccount, user: UserAccount, data: &[u8]) -> (r: Processed)
    ensures
        processed(program_id, campaign, user, data@, r),
{
    match CampaignInstruction::decode(data) {
        Err(e) => (campaign, user, Err(e)),
        Ok(CampaignInstruction::Create { name, description }) => {
            let ghost (n, d) = (name, description);
            let mut ctx = Create { program_id, campaign, user };
            let r = create(&mut ctx, name, description);
            assert(create_spec(Create { program_id, campaign, user }, n, d) == (
                Create { program_id, campaign: ctx.campaign, user: ctx.user },
                r,
            ));
            (ctx.campaign, ctx.user, r)
        },
        Ok(CampaignInstruction::Donate { amount }) => {
            let mut ctx = Donate { program_id, campaign, user };
            let r = donate(&mut ctx, amount);
            proof {
                reveal(donate_spec);
            }
            (ctx.campaign, ctx.user, r)
        },
        Ok(CampaignInstruction::Withdraw { amount }) => {
            let mut ctx = Withdraw { program_id, campaign, user };
            let r = withdraw(&mut ctx, amount);
            (ctx.campaign, ctx.user, r)
        },
    }
}

} // verus!
