use vstd::prelude::*;
use crate::state::Identity;
use crate::state::UserState;

verus! {

/// What the creation of a holder ledger arrives with.
#[derive(Clone, Copy, Debug)]
pub struct InitializeUser {
    /// The holder.
    pub user: Identity,
    /// The current time, in seconds.
    pub now: u64,
}

/// Creates a holder ledger: no shares, no pending reward, the checkpoint at
/// now.
pub fn handle_initialize_user(ctx: &InitializeUser) -> (user_state: UserState)
    ensures
        user_state == (UserState {
            owner: ctx.user,
            lp_token_balance: 0,
            last_claim_timestamp: ctx.now,
            pending_rewards: 0,
        }),
{
    UserState {
        owner: ctx.user,
        lp_token_balance: 0,
        last_claim_timestamp: ctx.now,
        pending_rewards: 0,
    }
}

} // verus!
