//! The pool's link to the price feed of the volatile asset.
use vstd::prelude::*;
use crate::errors::VaultError;
use crate::oracle::validate_price;
use crate::oracle::validate_price_spec;
use crate::state::AssetKind;
use crate::state::Initialize;
use crate::state::PoolState;
use crate::state::UpdateSolUsdPrice;

verus! {

/// Records on an existing pool ledger who administers it and where its
/// vaults, its share mint and its reward vault are. Nothing else changes.
pub fn initialize(ctx: &Initialize, pool_state: &mut PoolState)
    ensures
        *final(pool_state) == (PoolState {
            admin: ctx.admin,
            sol_vault: ctx.sol_vault,
            usdc_vault: ctx.usdc_vault,
            lp_token_mint: ctx.lp_token_mint,
            usdc_reward_vault: ctx.usdc_reward_vault,
            ..*old(pool_state)
        }),
{
    pool_state.admin = ctx.admin;
    pool_state.sol_vault = ctx.sol_vault;
    pool_state.usdc_vault = ctx.usdc_vault;
    pool_state.lp_token_mint = ctx.lp_token_mint;
    pool_state.usdc_reward_vault = ctx.usdc_reward_vault;
}

/// Takes the feed's latest observation as the pool's price of the volatile
/// asset, if it passes the checks on age, sign and confidence. A rejected
/// observation leaves the ledger as it was.
pub fn update_sol_usd_price(ctx: &UpdateSolUsdPrice, pool_state: &mut PoolState) -> (done: Result<
    (),
    VaultError,
>)
    ensures
        match validate_price_spec(ctx.round, ctx.now, AssetKind::Volatile) {
            Ok(price) => done == Ok::<(), VaultError>(()) && *final(pool_state) == (PoolState {
                sol_usd_price: price,
                ..*old(pool_state)
            }),
            Err(e) => done == Err::<(), VaultError>(e) && *final(pool_state) == *old(pool_state),
        },
{
    match validate_price(&ctx.round, ctx.now, AssetKind::Volatile) {
        Ok(price) => {
            pool_state.sol_usd_price = price;
            Ok(())
        },
        Err(e) => Err(e),
    }
}

} // verus!
