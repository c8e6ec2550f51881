use vstd::prelude::*;
use crate::state::Identity;
use crate::state::PoolState;

verus! {

/// What the creation of the pool arrives with.
#[derive(Clone, Copy, Debug)]
pub struct Initialize {
    /// The creator, who becomes the pool's admin for good.
    pub admin: Identity,
    /// Custody of the volatile asset.
    pub sol_vault: Identity,
    /// Custody of the stable asset.
    pub usdc_vault: Identity,
    /// Custody of the rewards.
    pub usdc_reward_vault: Identity,
    /// The LP share mint.
    pub lp_token_mint: Identity,
}

/// The ledger of a new pool: the identities it was created with, every
/// amount and time at zero, no price, not paused.
pub open spec fn initialize_spec(ctx: Initialize) -> PoolState {
    PoolState {
        admin: ctx.admin,
        sol_vault: ctx.sol_vault,
        usdc_vault: ctx.usdc_vault,
        lp_token_mint: ctx.lp_token_mint,
        aum_usd: 0,
        sol_deposited: 0,
        usdc_deposited: 0,
        tokens_per_interval: 0,
        reward_start_time: 0,
        reward_end_time: 0,
        usdc_reward_vault: ctx.usdc_reward_vault,
        sol_usd_price: 0,
        total_rewards_deposited: 0,
        total_rewards_claimed: 0,
        paused: false,
    }
}

/// Creates the pool ledger.
pub fn handle(ctx: &Initialize) -> (pool_state: PoolState)
    ensures
        pool_state == initialize_spec(*ctx),
        pool_state.wf(),
{
    PoolState {
        admin: ctx.admin,
        sol_vault: ctx.sol_vault,
        usdc_vault: ctx.usdc_vault,
        lp_token_mint: ctx.lp_token_mint,
        aum_usd: 0,
        sol_deposited: 0,
        usdc_deposited: 0,
        tokens_per_interval: 0,
        reward_start_time: 0,
        reward_end_time: 0,
        usdc_reward_vault: ctx.usdc_reward_vault,
        sol_usd_price: 0,
        total_rewards_deposited: 0,
        total_rewards_claimed: 0,
        paused: false,
    }
}

} // verus!
