//! The vault's operations, each under its own name.
use vstd::prelude::*;
use crate::errors::VaultError;
use crate::instructions::admin_deposit::admin_deposit_spec;
use crate::instructions::admin_deposit::AdminDeposit;
use crate::instructions::admin_withdraw::admin_withdraw_spec;
use crate::instructions::admin_withdraw::handle_admin_withdraw;
use crate::instructions::admin_withdraw::AdminWithdraw;
use crate::instructions::claim_rewards::claim_spec;
use crate::instructions::claim_rewards::handle_claim_rewards;
use crate::instructions::claim_rewards::ClaimRewards;
use crate::instructions::deposit::deposit_spec;
use crate::instructions::deposit::handle_deposit;
use crate::instructions::deposit::Deposit;
use crate::instructions::initialize::initialize_spec;
use crate::instructions::initialize::Initialize;
use crate::instructions::start_rewards::handle_start_rewards;
use crate::instructions::start_rewards::start_rewards_spec;
use crate::instructions::start_rewards::StartRewards;
use crate::instructions::withdraw::handle_withdraw;
use crate::instructions::withdraw::withdraw_spec;
use crate::instructions::withdraw::Withdraw;
use crate::state::PoolState;
use crate::state::UserState;

verus! {

/// Creates the pool ledger.
pub fn initialize(ctx: &Initialize) -> (pool_state: PoolState)
    ensures
        pool_state == initialize_spec(*ctx),
        pool_state.wf(),
{
    crate::instructions::initialize::handle(ctx)
}

/// Deposits the volatile or the stable asset into the pool; returns the LP
/// shares to mint.
pub fn deposit(
    ctx: &Deposit,
    pool_state: &mut PoolState,
    user_state: &mut UserState,
    token_amount: u64,
) -> (minted: Result<u64, VaultError>)
    ensures
        match deposit_spec(*ctx, *old(pool_state), *old(user_state), token_amount) {
            Ok((pool, user, shares)) => minted == Ok::<u64, VaultError>(shares)
                && *final(pool_state) == pool && *final(user_state) == user,
            Err(e) => minted == Err::<u64, VaultError>(e) && *final(pool_state) == *old(pool_state)
                && *final(user_state) == *old(user_state),
        },
{
    handle_deposit(ctx, pool_state, user_state, token_amount)
}

/// Redeems LP shares for the volatile or the stable asset; returns the
/// amount to pay out.
pub fn withdraw(
    ctx: &Withdraw,
    pool_state: &mut PoolState,
    user_state: &mut UserState,
    lp_token_amount: u64,
) -> (paid: Result<u64, VaultError>)
    ensures
        match withdraw_spec(*ctx, *old(pool_state), *old(user_state), lp_token_amount) {
            Ok((pool, user, token_amount)) => paid == Ok::<u64, VaultError>(token_amount)
                && *final(pool_state) == pool && *final(user_state) == user,
            Err(e) => paid == Err::<u64, VaultError>(e) && *final(pool_state) == *old(pool_state)
                && *final(user_state) == *old(user_state),
        },
{
    handle_withdraw(ctx, pool_state, user_state, lp_token_amount)
}

/// Books tokens that the admin takes out of a vault.
pub fn admin_withdraw(ctx: &AdminWithdraw, pool_state: &mut PoolState, amount: u64) -> (done: Result<
    (),
    VaultError,
>)
    ensures
        match admin_withdraw_spec(*ctx, *old(pool_state), amount) {
            Ok(pool) => done == Ok::<(), VaultError>(()) && *final(pool_state) == pool,
            Err(e) => done == Err::<(), VaultError>(e) && *final(pool_state) == *old(pool_state),
        },
{
    handle_admin_withdraw(ctx, pool_state, amount)
}

/// Books tokens that the admin adds to a vault.
pub fn admin_deposit(ctx: &AdminDeposit, pool_state: &mut PoolState, amount: u64) -> (done: Result<
    (),
    VaultError,
>)
    ensures
        match admin_deposit_spec(*ctx, *old(pool_state), amount) {
            Ok(pool) => done == Ok::<(), VaultError>(()) && *final(pool_state) == pool,
            Err(e) => done == Err::<(), VaultError>(e) && *final(pool_state) == *old(pool_state),
        },
{
    crate::instructions::admin_deposit::handle(ctx, pool_state, amount)
}

/// Opens a new reward window.
pub fn start_rewards(
    ctx: &StartRewards,
    pool_state: &mut PoolState,
    usdc_amount: u64,
    tokens_per_interval: u64,
) -> (done: Result<(), VaultError>)
    ensures
        match start_rewards_spec(*ctx, *old(pool_state), usdc_amount, tokens_per_interval) {
            Ok(pool) => done == Ok::<(), VaultError>(()) && *final(pool_state) == pool,
            Err(e) => done == Err::<(), VaultError>(e) && *final(pool_state) == *old(pool_state),
        },
{
    handle_start_rewards(ctx, pool_state, usdc_amount, tokens_per_interval)
}

/// Pays out a holder's rewards; returns the amount to pay.
pub fn claim_rewards(ctx: &ClaimRewards, pool_state: &mut PoolState, user_state: &mut UserState)
    -> (paid: Result<u64, VaultError>)
    ensures
        match claim_spec(*ctx, *old(pool_state), *old(user_state)) {
            Ok((pool, user, to_claim)) => paid == Ok::<u64, VaultError>(to_claim)
                && *final(pool_state) == pool && *final(user_state) == user,
            Err(e) => paid == Err::<u64, VaultError>(e) && *final(pool_state) == *old(pool_state)
                && *final(user_state) == *old(user_state),
        },
{
    handle_claim_rewards(ctx, pool_state, user_state)
}

} // verus!
