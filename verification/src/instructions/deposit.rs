use vstd::prelude::*;
use crate::errors::VaultError;
use crate::instructions::helpers::accrue_spec;
use crate::instructions::helpers::asset_value;
use crate::instructions::helpers::asset_value_spec;
use crate::instructions::helpers::refresh_price;
use crate::instructions::helpers::refresh_price_spec;
use crate::instructions::helpers::update_user_rewards;
use crate::oracle::PriceObservation;
use crate::state::AssetKind;
use crate::state::Identity;
use crate::state::PoolState;
use crate::state::UserState;

verus! {

/// What a deposit arrives with, besides the two ledgers and the amount.
#[derive(Clone, Copy, Debug)]
pub struct Deposit {
    /// The depositor.
    pub user: Identity,
    /// The vault that receives the tokens; it selects the asset.
    pub vault_account: Identity,
    /// LP shares outstanding before the deposit.
    pub lp_supply: u64,
    /// The oracle's latest observation of the volatile asset, where one was
    /// read. A deposit of the volatile asset needs it.
    pub price_feed: Option<PriceObservation>,
    /// The current time, in seconds.
    pub now: u64,
}

/// The ledger that a deposit by `who` is booked on: the holder's own, or a
/// vacant one, which becomes the holder's.
pub open spec fn depositor_ledger_spec(user: UserState, who: Identity) -> Result<
    UserState,
    VaultError,
> {
    if user.owner == who || user.is_vacant() {
        Ok(UserState { owner: who, ..user })
    } else {
        Err(VaultError::Unauthorized)
    }
}

/// The shares minted for a deposit worth `deposit_usd`.
///
/// The first deposit sets the share price at one USD unit. Later deposits
/// get `deposit_usd * lp_supply / aum_usd`, truncated, at the assets under
/// management before the deposit. Shares outstanding against an empty pool,
/// and a product beyond 64 bits, are `MathError`.
pub open spec fn shares_to_mint_spec(deposit_usd: u64, lp_supply: u64, aum_usd: u64) -> Result<
    u64,
    VaultError,
> {
    if lp_supply == 0 {
        Ok(deposit_usd)
    } else if aum_usd == 0 || deposit_usd * lp_supply > u64::MAX {
        Err(VaultError::MathError)
    } else {
        Ok(((deposit_usd * lp_supply) / (aum_usd as int)) as u64)
    }
}

pub fn shares_to_mint(deposit_usd: u64, lp_supply: u64, aum_usd: u64) -> (shares: Result<
    u64,
    VaultError,
>)
    ensures
        shares == shares_to_mint_spec(deposit_usd, lp_supply, aum_usd),
{
    if lp_supply == 0 {
        return Ok(deposit_usd);
    }
    if aum_usd == 0 {
        return Err(VaultError::MathError);
    }
    match deposit_usd.checked_mul(lp_supply) {
        Some(product) => Ok(product / aum_usd),
        None => Err(VaultError::MathError),
    }
}

/// The ledgers after booking a priced deposit, with the shares minted; or
/// `MathError` when the share supply, the holder's balance, the asset's
/// deposited total or the assets under management would pass 64 bits.
pub open spec fn book_deposit_spec(
    pool: PoolState,
    user: UserState,
    asset: AssetKind,
    token_amount: u64,
    deposit_usd: u64,
    shares: u64,
    lp_supply: u64,
) -> Result<(PoolState, UserState, u64), VaultError> {
    let deposited = match asset {
        AssetKind::Volatile => pool.sol_deposited,
        AssetKind::Stable => pool.usdc_deposited,
    };
    if lp_supply + shares > u64::MAX || user.lp_token_balance + shares > u64::MAX || deposited
        + token_amount > u64::MAX || pool.aum_usd + deposit_usd > u64::MAX {
        Err(VaultError::MathError)
    } else {
        let booked = match asset {
            AssetKind::Volatile => PoolState {
                sol_deposited: (pool.sol_deposited + token_amount) as u64,
                aum_usd: (pool.aum_usd + deposit_usd) as u64,
                ..pool
            },
            AssetKind::Stable => PoolState {
                usdc_deposited: (pool.usdc_deposited + token_amount) as u64,
                aum_usd: (pool.aum_usd + deposit_usd) as u64,
                ..pool
            },
        };
        Ok(
            (
                booked,
                UserState { lp_token_balance: (user.lp_token_balance + shares) as u64, ..user },
                shares,
            ),
        )
    }
}

/// What a deposit does: the two ledgers after it and the shares to mint, or
/// the reason why it is rejected.
///
/// In this order: the pool must not be paused; the ledger must be the
/// depositor's or vacant; the vault must select an asset; rewards accrue up
/// to now; the volatile asset's price is refreshed from the oracle; the
/// deposit is valued; the shares are computed against the assets under
/// management before the deposit; the ledgers are updated.
pub open spec fn deposit_spec(ctx: Deposit, pool: PoolState, user: UserState, token_amount: u64)
    -> Result<(PoolState, UserState, u64), VaultError> {
    if pool.paused {
        Err(VaultError::ProgramPaused)
    } else {
        match depositor_ledger_spec(user, ctx.user) {
            Err(e) => Err(e),
            Ok(ledger) => match pool.asset_of_spec(ctx.vault_account) {
                Err(e) => Err(e),
                Ok(asset) => match accrue_spec(pool, ledger, ctx.now) {
                    Err(e) => Err(e),
                    Ok(accrued) => match refresh_price_spec(
                        pool.sol_usd_price,
                        asset,
                        ctx.price_feed,
                        ctx.now,
                    ) {
                        Err(e) => Err(e),
                        Ok(price) => match asset_value_spec(asset, token_amount, price) {
                            Err(e) => Err(e),
                            Ok(deposit_usd) => match shares_to_mint_spec(
                                deposit_usd,
                                ctx.lp_supply,
                                pool.aum_usd,
                            ) {
                                Err(e) => Err(e),
                                Ok(shares) => book_deposit_spec(
                                    PoolState { sol_usd_price: price, ..pool },
                                    accrued,
                                    asset,
                                    token_amount,
                                    deposit_usd,
                                    shares,
                                    ctx.lp_supply,
                                ),
                            },
                        },
                    },
                },
            },
        }
    }
}

/// Deposits `token_amount` of the asset that `ctx.vault_account` selects.
///
/// Returns the number of LP shares to mint to the depositor; the caller
/// moves `token_amount` into the vault. A rejected deposit changes neither
/// ledger, so nothing it computed on the way (the reward checkpoint, the
/// refreshed price) outlives it.
pub fn handle_deposit(
    ctx: &Deposit,
    pool_state: &mut PoolState,
    user_state: &mut UserState,
    token_amount: u64,
) -> (minted: Result<u64, VaultError>)
    ensures
        match deposit_spec(*ctx, *old(pool_state), *old(user_state), token_amount) {
            Ok((pool, user, shares)) => minted == Ok::<u64, VaultError>(shares)
                && *final(pool_state) == pool && *final(user_state) == user,
            Err(e) => minted == Err::<u64, VaultError>(e) && *final(pool_state) == *old(pool_state)
                && *final(user_state) == *old(user_state),
        },
        old(pool_state).wf() ==> final(pool_state).wf(),
{
    if pool_state.paused {
        return Err(VaultError::ProgramPaused);
    }
    let mut user = *user_state;
    if !(user.owner == ctx.user) {
        if user.owner.is_unassigned() && user.lp_token_balance == 0 && user.pending_rewards == 0 {
            user.owner = ctx.user;
        } else {
            return Err(VaultError::Unauthorized);
        }
    }
    let asset = match pool_state.asset_of(&ctx.vault_account) {
        Ok(a) => a,
        Err(e) => {
            return Err(e);
        },
    };
    match update_user_rewards(pool_state, &mut user, ctx.now) {
        Ok(()) => {},
        Err(e) => {
            return Err(e);
        },
    }
    let price = match refresh_price(pool_state.sol_usd_price, asset, &ctx.price_feed, ctx.now) {
        Ok(p) => p,
        Err(e) => {
            return Err(e);
        },
    };
    let deposit_usd = match asset_value(asset, token_amount, price) {
        Ok(v) => v,
        Err(e) => {
            return Err(e);
        },
    };
    let shares = match shares_to_mint(deposit_usd, ctx.lp_supply, pool_state.aum_usd) {
        Ok(s) => s,
        Err(e) => {
            return Err(e);
        },
    };
    if ctx.lp_supply.checked_add(shares).is_none() {
        return Err(VaultError::MathError);
    }
    let balance = match user.lp_token_balance.checked_add(shares) {
        Some(b) => b,
        None => {
            return Err(VaultError::MathError);
        },
    };
    let deposited = match asset {
        AssetKind::Volatile => pool_state.sol_deposited,
        AssetKind::Stable => pool_state.usdc_deposited,
    };
    let deposited = match deposited.checked_add(token_amount) {
        Some(d) => d,
        None => {
            return Err(VaultError::MathError);
        },
    };
    let aum_usd = match pool_state.aum_usd.checked_add(deposit_usd) {
        Some(a) => a,
        None => {
            return Err(VaultError::MathError);
        },
    };
    user.lp_token_balance = balance;
    *user_state = user;
    pool_state.sol_usd_price = price;
    pool_state.aum_usd = aum_usd;
    match asset {
        AssetKind::Volatile => {
            pool_state.sol_deposited = deposited;
        },
        AssetKind::Stable => {
            pool_state.usdc_deposited = deposited;
        },
    }
    Ok(shares)
}

} // verus!
