use vstd::prelude::*;
use vstd::arithmetic::div_mod::lemma_div_is_ordered;
use vstd::arithmetic::div_mod::lemma_div_multiples_vanish;
use crate::errors::VaultError;
use crate::instructions::helpers::accrue_spec;
use crate::instructions::helpers::asset_amount;
use crate::instructions::helpers::asset_amount_spec;
use crate::instructions::helpers::refresh_price;
use crate::instructions::helpers::refresh_price_spec;
use crate::instructions::helpers::update_user_rewards;
use crate::oracle::PriceObservation;
use crate::state::AssetKind;
use crate::state::Identity;
use crate::state::PoolState;
use crate::state::UserState;

verus! {

/// What a withdrawal arrives with, besides the two ledgers and the amount.
#[derive(Clone, Copy, Debug)]
pub struct Withdraw {
    /// The holder who redeems.
    pub user: Identity,
    /// The vault that pays out; it selects the asset.
    pub vault_account: Identity,
    /// LP shares outstanding before the withdrawal.
    pub lp_supply: u64,
    /// The oracle's latest observation of the volatile asset, where one was
    /// read. A withdrawal of the volatile asset needs it.
    pub price_feed: Option<PriceObservation>,
    /// The current time, in seconds.
    pub now: u64,
}

/// The USD value of `lp_token_amount` shares: `shares * aum_usd / lp_supply`,
/// truncated, with a supply of zero counted as one. A product beyond 64 bits
/// is `MathError`.
pub open spec fn withdrawal_value_spec(lp_token_amount: u64, aum_usd: u64, lp_supply: u64)
    -> Result<u64, VaultError> {
    let supply: int = if lp_supply == 0 {
        1
    } else {
        lp_supply as int
    };
    if lp_token_amount * aum_usd > u64::MAX {
        Err(VaultError::MathError)
    } else {
        Ok(((lp_token_amount * aum_usd) / supply) as u64)
    }
}

pub fn withdrawal_value(lp_token_amount: u64, aum_usd: u64, lp_supply: u64) -> (usd: Result<
    u64,
    VaultError,
>)
    ensures
        usd == withdrawal_value_spec(lp_token_amount, aum_usd, lp_supply),
{
    let supply: u64 = if lp_supply == 0 {
        1
    } else {
        lp_supply
    };
    match lp_token_amount.checked_mul(aum_usd) {
        Some(product) => Ok(product / supply),
        None => Err(VaultError::MathError),
    }
}

/// Shares never redeem for more than the pool holds: where no more shares
/// are redeemed than are outstanding, their value is at most the assets
/// under management.
pub proof fn lemma_withdrawal_value_bounded(lp_token_amount: u64, aum_usd: u64, lp_supply: u64)
    requires
        lp_token_amount <= lp_supply,
    ensures
        withdrawal_value_spec(lp_token_amount, aum_usd, lp_supply) matches Ok(usd) ==> usd
            <= aum_usd,
{
    if lp_supply > 0 {
        let supply = lp_supply as int;
        assert(lp_token_amount * aum_usd <= supply * aum_usd) by (nonlinear_arith)
            requires
                lp_token_amount <= supply,
        ;
        assert(supply * aum_usd == aum_usd * supply) by (nonlinear_arith);
        lemma_div_is_ordered(lp_token_amount * aum_usd, supply * aum_usd, supply);
        lemma_div_multiples_vanish(aum_usd as int, supply);
    } else {
        assert(lp_token_amount * aum_usd == 0) by (nonlinear_arith)
            requires
                lp_token_amount == 0,
        ;
    }
}

/// The ledgers after booking a withdrawal that pays `token_amount`, with the
/// amount paid; or `MathError` when the pool's record of the asset holds
/// less than that.
pub open spec fn book_withdrawal_spec(
    pool: PoolState,
    user: UserState,
    asset: AssetKind,
    lp_token_amount: u64,
    withdrawal_usd: u64,
    token_amount: u64,
) -> Result<(PoolState, UserState, u64), VaultError> {
    let deposited = match asset {
        AssetKind::Volatile => pool.sol_deposited,
        AssetKind::Stable => pool.usdc_deposited,
    };
    if token_amount > deposited {
        Err(VaultError::MathError)
    } else {
        let booked = match asset {
            AssetKind::Volatile => PoolState {
                sol_deposited: (pool.sol_deposited - token_amount) as u64,
                aum_usd: (pool.aum_usd - withdrawal_usd) as u64,
                ..pool
            },
            AssetKind::Stable => PoolState {
                usdc_deposited: (pool.usdc_deposited - token_amount) as u64,
                aum_usd: (pool.aum_usd - withdrawal_usd) as u64,
                ..pool
            },
        };
        Ok(
            (
                booked,
                UserState {
                    lp_token_balance: (user.lp_token_balance - lp_token_amount) as u64,
                    ..user
                },
                token_amount,
            ),
        )
    }
}

/// What a withdrawal does: the two ledgers after it and the amount of the
/// asset to pay out, or the reason why it is rejected.
///
/// In this order: the pool must not be paused; the ledger must be the
/// caller's; it must hold the shares; the vault must select an asset; rewards
/// accrue up to now; the volatile asset's price is refreshed from the oracle;
/// no more shares are burnt than are outstanding; the shares are valued
/// against the assets under management and converted to the asset; the
/// ledgers are updated by the amount that is paid.
pub open spec fn withdraw_spec(
    ctx: Withdraw,
    pool: PoolState,
    user: UserState,
    lp_token_amount: u64,
) -> Result<(PoolState, UserState, u64), VaultError> {
    if pool.paused {
        Err(VaultError::ProgramPaused)
    } else if user.owner != ctx.user {
        Err(VaultError::Unauthorized)
    } else if user.lp_token_balance < lp_token_amount {
        Err(VaultError::InsufficientLpBalance)
    } else {
        match pool.asset_of_spec(ctx.vault_account) {
            Err(e) => Err(e),
            Ok(asset) => match accrue_spec(pool, user, ctx.now) {
                Err(e) => Err(e),
                Ok(accrued) => match refresh_price_spec(
                    pool.sol_usd_price,
                    asset,
                    ctx.price_feed,
                    ctx.now,
                ) {
                    Err(e) => Err(e),
                    Ok(price) => if ctx.lp_supply < lp_token_amount {
                        Err(VaultError::MathError)
                    } else {
                        match withdrawal_value_spec(lp_token_amount, pool.aum_usd, ctx.lp_supply) {
                            Err(e) => Err(e),
                            Ok(withdrawal_usd) => match asset_amount_spec(
                                asset,
                                withdrawal_usd,
                                price,
                            ) {
                                Err(e) => Err(e),
                                Ok(token_amount) => book_withdrawal_spec(
                                    PoolState { sol_usd_price: price, ..pool },
                                    accrued,
                                    asset,
                                    lp_token_amount,
                                    withdrawal_usd,
                                    token_amount,
                                ),
                            },
                        }
                    },
                },
            },
        }
    }
}

/// Redeems `lp_token_amount` shares for the asset that `ctx.vault_account`
/// selects.
///
/// Returns the amount of the asset to pay out of the vault; the caller burns
/// the shares and moves that amount. A rejected withdrawal changes neither
/// ledger.
pub fn handle_withdraw(
    ctx: &Withdraw,
    pool_state: &mut PoolState,
    user_state: &mut UserState,
    lp_token_amount: u64,
) -> (paid: Result<u64, VaultError>)
    ensures
        match withdraw_spec(*ctx, *old(pool_state), *old(user_state), lp_token_amount) {
            Ok((pool, user, token_amount)) => paid == Ok::<u64, VaultError>(token_amount)
                && *final(pool_state) == pool && *final(user_state) == user,
            Err(e) => paid == Err::<u64, VaultError>(e) && *final(pool_state) == *old(pool_state)
                && *final(user_state) == *old(user_state),
        },
        old(pool_state).wf() ==> final(pool_state).wf(),
{
    if pool_state.paused {
        return Err(VaultError::ProgramPaused);
    }
    if !(user_state.owner == ctx.user) {
        return Err(VaultError::Unauthorized);
    }
    if user_state.lp_token_balance < lp_token_amount {
        return Err(VaultError::InsufficientLpBalance);
    }
    let asset = match pool_state.asset_of(&ctx.vault_account) {
        Ok(a) => a,
        Err(e) => {
            return Err(e);
        },
    };
    let mut user = *user_state;
    match update_user_rewards(pool_state, &mut user, ctx.now) {
        Ok(()) => {},
        Err(e) => {
            return Err(e);
        },
    }
    let price = match refresh_price(pool_state.sol_usd_price, asset, &ctx.price_feed, ctx.now) {
        Ok(p) => p,
        Err(e) => {
            return Err(e);
        },
    };
    if ctx.lp_supply < lp_token_amount {
        return Err(VaultError::MathError);
    }
    let withdrawal_usd = match withdrawal_value(lp_token_amount, pool_state.aum_usd, ctx.lp_supply) {
        Ok(v) => v,
        Err(e) => {
            return Err(e);
        },
    };
    proof {
        lemma_withdrawal_value_bounded(lp_token_amount, pool_state.aum_usd, ctx.lp_supply);
    }
    let token_amount = match asset_amount(asset, withdrawal_usd, price) {
        Ok(t) => t,
        Err(e) => {
            return Err(e);
        },
    };
    let deposited = match asset {
        AssetKind::Volatile => pool_state.sol_deposited,
        AssetKind::Stable => pool_state.usdc_deposited,
    };
    if token_amount > deposited {
        return Err(VaultError::MathError);
    }
    user.lp_token_balance = user.lp_token_balance - lp_token_amount;
    *user_state = user;
    pool_state.sol_usd_price = price;
    pool_state.aum_usd = pool_state.aum_usd - withdrawal_usd;
    match asset {
        AssetKind::Volatile => {
            pool_state.sol_deposited = deposited - token_amount;
        },
        AssetKind::Stable => {
            pool_state.usdc_deposited = deposited - token_amount;
        },
    }
    Ok(token_amount)
}

} // verus!
