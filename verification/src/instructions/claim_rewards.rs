use vstd::prelude::*;
use crate::errors::VaultError;
use crate::instructions::helpers::accrue_spec;
use crate::instructions::helpers::update_user_rewards;
use crate::state::Identity;
use crate::state::PoolState;
use crate::state::UserState;

verus! {

/// What a claim arrives with, besides the two ledgers.
#[derive(Clone, Copy, Debug)]
pub struct ClaimRewards {
    /// The holder who claims.
    pub user: Identity,
    /// The current time, in seconds.
    pub now: u64,
}

/// Rewards funded for the current window and not yet paid out.
pub open spec fn rewards_available(pool: PoolState) -> int {
    if pool.total_rewards_deposited >= pool.total_rewards_claimed {
        pool.total_rewards_deposited - pool.total_rewards_claimed
    } else {
        0
    }
}

/// What a claim pays once the holder's rewards are up to date: all that is
/// pending, or as much of it as is still funded.
pub open spec fn claimable(pool: PoolState, user: UserState) -> int {
    if user.pending_rewards <= rewards_available(pool) {
        user.pending_rewards as int
    } else {
        rewards_available(pool)
    }
}

/// What a claim does: the two ledgers after it and the amount to pay, or the
/// reason why it is rejected.
///
/// The ledger must be the caller's, and rewards accrue up to now. The amount
/// paid leaves the holder's pending reward and joins the pool's claimed
/// total. An amount of zero is no error.
pub open spec fn claim_spec(ctx: ClaimRewards, pool: PoolState, user: UserState) -> Result<
    (PoolState, UserState, u64),
    VaultError,
> {
    if user.owner != ctx.user {
        Err(VaultError::Unauthorized)
    } else {
        match accrue_spec(pool, user, ctx.now) {
            Err(e) => Err(e),
            Ok(accrued) => {
                let to_claim = claimable(pool, accrued);
                Ok(
                    (
                        PoolState {
                            total_rewards_claimed: (pool.total_rewards_claimed + to_claim) as u64,
                            ..pool
                        },
                        UserState {
                            pending_rewards: (accrued.pending_rewards - to_claim) as u64,
                            ..accrued
                        },
                        to_claim as u64,
                    ),
                )
            },
        }
    }
}

/// Pays out a holder's rewards.
///
/// Returns the amount to move from the reward vault to the holder; the
/// caller moves nothing where it is zero. A rejected claim changes neither
/// ledger. A pool that has not paid out more than was funded never does so
/// after a claim.
pub fn handle_claim_rewards(
    ctx: &ClaimRewards,
    pool_state: &mut PoolState,
    user_state: &mut UserState,
) -> (paid: Result<u64, VaultError>)
    ensures
        match claim_spec(*ctx, *old(pool_state), *old(user_state)) {
            Ok((pool, user, to_claim)) => paid == Ok::<u64, VaultError>(to_claim)
                && *final(pool_state) == pool && *final(user_state) == user,
            Err(e) => paid == Err::<u64, VaultError>(e) && *final(pool_state) == *old(pool_state)
                && *final(user_state) == *old(user_state),
        },
        old(pool_state).wf() ==> final(pool_state).wf(),
{
    if !(user_state.owner == ctx.user) {
        return Err(VaultError::Unauthorized);
    }
    let mut user = *user_state;
    match update_user_rewards(pool_state, &mut user, ctx.now) {
        Ok(()) => {},
        Err(e) => {
            return Err(e);
        },
    }
    let available = pool_state.total_rewards_deposited.saturating_sub(
        pool_state.total_rewards_claimed,
    );
    let to_claim = if user.pending_rewards <= available {
        user.pending_rewards
    } else {
        available
    };
    user.pending_rewards = user.pending_rewards - to_claim;
    *user_state = user;
    pool_state.total_rewards_claimed = pool_state.total_rewards_claimed + to_claim;
    Ok(to_claim)
}

} // verus!
