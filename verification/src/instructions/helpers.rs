use vstd::prelude::*;
use crate::errors::VaultError;
use crate::oracle::validate_price;
use crate::oracle::validate_price_spec;
use crate::oracle::PriceObservation;
use crate::state::get_sol_amount_from_usd;
use crate::state::get_sol_amount_from_usd_spec;
use crate::state::get_sol_usd_value;
use crate::state::get_sol_usd_value_spec;
use crate::state::AssetKind;
use crate::state::PoolState;
use crate::state::UserState;

verus! {

/// The seconds for which a holder accrues between the last checkpoint and
/// `now`: the length of `[max(last, start), min(now, end))`, and zero for a
/// holder without shares, before the window opens, or once the checkpoint has
/// reached its end.
pub open spec fn accrual_elapsed(pool: PoolState, user: UserState, now: u64) -> int {
    let from = if user.last_claim_timestamp >= pool.reward_start_time {
        user.last_claim_timestamp
    } else {
        pool.reward_start_time
    };
    let to = if now <= pool.reward_end_time {
        now
    } else {
        pool.reward_end_time
    };
    if user.lp_token_balance == 0 || now <= pool.reward_start_time || user.last_claim_timestamp
        >= pool.reward_end_time || to <= from {
        0
    } else {
        to - from
    }
}

/// The reward that a holder accrues between the last checkpoint and `now`:
/// shares times rate times elapsed seconds.
pub open spec fn newly_accrued(pool: PoolState, user: UserState, now: u64) -> int {
    user.lp_token_balance * pool.tokens_per_interval * accrual_elapsed(pool, user, now)
}

/// The holder ledger after a checkpoint at `now`, or `MathError` when the
/// pending reward would not fit in 64 bits.
pub open spec fn accrue_spec(pool: PoolState, user: UserState, now: u64) -> Result<
    UserState,
    VaultError,
> {
    let pending = user.pending_rewards + newly_accrued(pool, user, now);
    if pending > u64::MAX {
        Err(VaultError::MathError)
    } else {
        Ok(UserState { pending_rewards: pending as u64, last_claim_timestamp: now, ..user })
    }
}

/// Brings a holder's pending reward up to `now` and moves the checkpoint
/// there. Runs before every change of the holder's share balance.
///
/// On failure the ledger is left as it was.
pub fn update_user_rewards(pool_state: &PoolState, user_state: &mut UserState, now: u64) -> (done:
    Result<(), VaultError>)
    ensures
        match accrue_spec(*pool_state, *old(user_state), now) {
            Ok(after) => done == Ok::<(), VaultError>(()) && *final(user_state) == after,
            Err(e) => done == Err::<(), VaultError>(e) && *final(user_state) == *old(user_state),
        },
{
    let ghost before = *user_state;
    if user_state.lp_token_balance == 0 {
        user_state.last_claim_timestamp = now;
        assert(newly_accrued(*pool_state, before, now) == 0) by (nonlinear_arith)
            requires
                before.lp_token_balance == 0,
                newly_accrued(*pool_state, before, now) == before.lp_token_balance
                    * pool_state.tokens_per_interval * accrual_elapsed(*pool_state, before, now),
        ;
        return Ok(());
    }
    let last_claim = user_state.last_claim_timestamp;
    if now <= pool_state.reward_start_time || last_claim >= pool_state.reward_end_time {
        user_state.last_claim_timestamp = now;
        assert(newly_accrued(*pool_state, before, now) == 0) by (nonlinear_arith)
            requires
                accrual_elapsed(*pool_state, before, now) == 0,
                newly_accrued(*pool_state, before, now) == before.lp_token_balance
                    * pool_state.tokens_per_interval * accrual_elapsed(*pool_state, before, now),
        ;
        return Ok(());
    }
    let claim_start = if last_claim >= pool_state.reward_start_time {
        last_claim
    } else {
        pool_state.reward_start_time
    };
    let claim_end = if now <= pool_state.reward_end_time {
        now
    } else {
        pool_state.reward_end_time
    };
    let time_elapsed = claim_end.saturating_sub(claim_start);
    assert(time_elapsed == accrual_elapsed(*pool_state, before, now));
    let ghost rate_by_shares = before.lp_token_balance * pool_state.tokens_per_interval;
    let ghost accrued = newly_accrued(*pool_state, before, now);
    assert(0 <= rate_by_shares <= u128::MAX && accrued == rate_by_shares * time_elapsed && accrued
        >= 0) by (nonlinear_arith)
        requires
            rate_by_shares == before.lp_token_balance * pool_state.tokens_per_interval,
            before.lp_token_balance <= u64::MAX,
            pool_state.tokens_per_interval <= u64::MAX,
            accrued == before.lp_token_balance * pool_state.tokens_per_interval * time_elapsed,
            time_elapsed >= 0,
    ;
    let per_second: u128 = user_state.lp_token_balance as u128
        * pool_state.tokens_per_interval as u128;
    let newly = match per_second.checked_mul(time_elapsed as u128) {
        Some(n) => n,
        None => {
            return Err(VaultError::MathError);
        },
    };
    let pending = match newly.checked_add(user_state.pending_rewards as u128) {
        Some(p) => p,
        None => {
            return Err(VaultError::MathError);
        },
    };
    if pending > u64::MAX as u128 {
        return Err(VaultError::MathError);
    }
    user_state.pending_rewards = pending as u64;
    user_state.last_claim_timestamp = now;
    Ok(())
}

/// Accrual never takes anything away: the newly accrued reward is not
/// negative, and a checkpoint leaves the shares and the owner alone.
pub proof fn lemma_accrual_never_decreases(pool: PoolState, user: UserState, now: u64)
    ensures
        accrual_elapsed(pool, user, now) >= 0,
        newly_accrued(pool, user, now) >= 0,
        accrue_spec(pool, user, now) matches Ok(after) ==> after.pending_rewards
            >= user.pending_rewards && after.lp_token_balance == user.lp_token_balance
            && after.owner == user.owner && after.last_claim_timestamp == now,
{
    let e = accrual_elapsed(pool, user, now);
    assert(user.lp_token_balance * pool.tokens_per_interval * e >= 0) by (nonlinear_arith)
        requires
            e >= 0,
    ;
}

/// Inside the reward window a holder accrues exactly shares times rate times
/// the seconds since the last checkpoint.
pub proof fn lemma_accrual_inside_window(pool: PoolState, user: UserState, now: u64)
    requires
        pool.reward_start_time <= user.last_claim_timestamp <= now <= pool.reward_end_time,
    ensures
        newly_accrued(pool, user, now) == user.lp_token_balance * pool.tokens_per_interval * (now
            - user.last_claim_timestamp),
{
    let e = accrual_elapsed(pool, user, now);
    let full = now - user.last_claim_timestamp;
    if e != full {
        assert(user.lp_token_balance == 0 || full == 0);
        assert(user.lp_token_balance * pool.tokens_per_interval * full == 0) by (nonlinear_arith)
            requires
                user.lp_token_balance == 0 || full == 0,
        ;
        assert(user.lp_token_balance * pool.tokens_per_interval * e == 0) by (nonlinear_arith)
            requires
                e == 0,
        ;
    }
}

/// With the shares held constant and nothing claimed, what a holder has
/// accrued does not decrease as time goes on.
pub proof fn lemma_accrual_monotonic_in_time(
    pool: PoolState,
    user: UserState,
    earlier: u64,
    later: u64,
)
    requires
        earlier <= later,
    ensures
        newly_accrued(pool, user, earlier) <= newly_accrued(pool, user, later),
{
    let e1 = accrual_elapsed(pool, user, earlier);
    let e2 = accrual_elapsed(pool, user, later);
    assert(0 <= e1 <= e2);
    assert(user.lp_token_balance * pool.tokens_per_interval * e1 <= user.lp_token_balance
        * pool.tokens_per_interval * e2) by (nonlinear_arith)
        requires
            0 <= e1 <= e2,
    ;
}

/// A checkpoint on the way changes nothing: accruing up to `middle` and from
/// there up to `now` gives what accruing up to `now` at once gives.
pub proof fn lemma_accrual_splits(pool: PoolState, user: UserState, middle: u64, now: u64)
    requires
        user.last_claim_timestamp <= middle <= now,
        accrue_spec(pool, user, middle) is Ok,
    ensures
        newly_accrued(pool, user, middle) + newly_accrued(
            pool,
            accrue_spec(pool, user, middle)->Ok_0,
            now,
        ) == newly_accrued(pool, user, now),
{
    let mid = accrue_spec(pool, user, middle)->Ok_0;
    let e1 = accrual_elapsed(pool, user, middle);
    let e2 = accrual_elapsed(pool, mid, now);
    let e = accrual_elapsed(pool, user, now);
    assert(e1 + e2 == e);
    let k = user.lp_token_balance * pool.tokens_per_interval;
    assert(k * e1 + k * e2 == k * e) by (nonlinear_arith)
        requires
            e1 + e2 == e,
    ;
}

/// The USD value of `amount` of an asset: the stable asset counts one to one,
/// the volatile asset is priced.
pub open spec fn asset_value_spec(asset: AssetKind, amount: u64, sol_usd_price: i128) -> Result<
    u64,
    VaultError,
> {
    match asset {
        AssetKind::Volatile => get_sol_usd_value_spec(amount, sol_usd_price),
        AssetKind::Stable => Ok(amount),
    }
}

pub fn asset_value(asset: AssetKind, amount: u64, sol_usd_price: i128) -> (usd: Result<
    u64,
    VaultError,
>)
    ensures
        usd == asset_value_spec(asset, amount, sol_usd_price),
{
    match asset {
        AssetKind::Volatile => get_sol_usd_value(amount, sol_usd_price),
        AssetKind::Stable => Ok(amount),
    }
}

/// The amount of an asset worth `usd`: the inverse of [`asset_value_spec`].
pub open spec fn asset_amount_spec(asset: AssetKind, usd: u64, sol_usd_price: i128) -> Result<
    u64,
    VaultError,
> {
    match asset {
        AssetKind::Volatile => get_sol_amount_from_usd_spec(usd, sol_usd_price),
        AssetKind::Stable => Ok(usd),
    }
}

pub fn asset_amount(asset: AssetKind, usd: u64, sol_usd_price: i128) -> (amount: Result<
    u64,
    VaultError,
>)
    ensures
        amount == asset_amount_spec(asset, usd, sol_usd_price),
{
    match asset {
        AssetKind::Volatile => get_sol_amount_from_usd(usd, sol_usd_price),
        AssetKind::Stable => Ok(usd),
    }
}

/// The price at which an operation on `asset` runs. The volatile asset needs
/// a fresh observation, which replaces the pool's last known price; the
/// stable asset needs none and leaves the pool's price as it is.
pub open spec fn refresh_price_spec(
    sol_usd_price: i128,
    asset: AssetKind,
    price_feed: Option<PriceObservation>,
    now: u64,
) -> Result<i128, VaultError> {
    match asset {
        AssetKind::Stable => Ok(sol_usd_price),
        AssetKind::Volatile => match price_feed {
            None => Err(VaultError::InvalidOraclePrice),
            Some(obs) => validate_price_spec(obs, now, AssetKind::Volatile),
        },
    }
}

pub fn refresh_price(
    sol_usd_price: i128,
    asset: AssetKind,
    price_feed: &Option<PriceObservation>,
    now: u64,
) -> (price: Result<i128, VaultError>)
    ensures
        price == refresh_price_spec(sol_usd_price, asset, *price_feed, now),
{
    match asset {
        AssetKind::Stable => Ok(sol_usd_price),
        AssetKind::Volatile => match price_feed {
            None => Err(VaultError::InvalidOraclePrice),
            Some(obs) => validate_price(obs, now, AssetKind::Volatile),
        },
    }
}

} // verus!
