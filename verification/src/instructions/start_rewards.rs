use vstd::prelude::*;
use crate::errors::VaultError;
use crate::state::Identity;
use crate::state::PoolState;

verus! {

/// How long a reward window stays open: one week, in seconds.
pub const REWARD_PERIOD_SECS: u64 = 604_800;

/// What the start of a reward window arrives with, besides the pool ledger
/// and the two amounts.
#[derive(Clone, Copy, Debug)]
pub struct StartRewards {
    /// The caller, who must be the pool's admin.
    pub admin: Identity,
    /// The current time, in seconds.
    pub now: u64,
}

/// What the start of a reward window does to the pool ledger.
///
/// Only the admin may start one, and the window `[now, now + one week)` must
/// end within 64 bits. The funded total becomes `usdc_amount`, the claimed
/// total starts again at zero, and the rate becomes `tokens_per_interval`.
pub open spec fn start_rewards_spec(
    ctx: StartRewards,
    pool: PoolState,
    usdc_amount: u64,
    tokens_per_interval: u64,
) -> Result<PoolState, VaultError> {
    if ctx.admin != pool.admin {
        Err(VaultError::Unauthorized)
    } else if ctx.now + REWARD_PERIOD_SECS > u64::MAX {
        Err(VaultError::MathError)
    } else {
        Ok(
            PoolState {
                total_rewards_deposited: usdc_amount,
                total_rewards_claimed: 0,
                tokens_per_interval,
                reward_start_time: ctx.now,
                reward_end_time: (ctx.now + REWARD_PERIOD_SECS) as u64,
                ..pool
            },
        )
    }
}

/// Opens a new reward window funded with `usdc_amount`.
///
/// The caller moves `usdc_amount` into the reward vault. What an earlier
/// window left unclaimed is no longer counted. A rejected call leaves the
/// ledger as it was.
pub fn handle_start_rewards(
    ctx: &StartRewards,
    pool_state: &mut PoolState,
    usdc_amount: u64,
    tokens_per_interval: u64,
) -> (done: Result<(), VaultError>)
    ensures
        match start_rewards_spec(*ctx, *old(pool_state), usdc_amount, tokens_per_interval) {
            Ok(pool) => done == Ok::<(), VaultError>(()) && *final(pool_state) == pool,
            Err(e) => done == Err::<(), VaultError>(e) && *final(pool_state) == *old(pool_state),
        },
        done is Ok ==> final(pool_state).wf(),
{
    if !(ctx.admin == pool_state.admin) {
        return Err(VaultError::Unauthorized);
    }
    let end = match ctx.now.checked_add(REWARD_PERIOD_SECS) {
        Some(t) => t,
        None => {
            return Err(VaultError::MathError);
        },
    };
    pool_state.total_rewards_deposited = usdc_amount;
    pool_state.total_rewards_claimed = 0;
    pool_state.tokens_per_interval = tokens_per_interval;
    pool_state.reward_start_time = ctx.now;
    pool_state.reward_end_time = end;
    Ok(())
}

} // verus!
