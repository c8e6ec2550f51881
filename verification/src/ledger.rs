//! The vault as a whole: the pool ledger, the share supply and all holder
//! ledgers together, and what holds of them under every sequence of
//! operations.
use vstd::prelude::*;
use crate::fixed_point::lemma_round_trip_from_usd;
use crate::fixed_point::sol_usd_value;
use crate::fixed_point::SOL_PRICE_SCALE;
use crate::instructions::admin_deposit::admin_deposit_spec;
use crate::instructions::admin_deposit::AdminDeposit;
use crate::instructions::admin_withdraw::admin_withdraw_spec;
use crate::instructions::admin_withdraw::AdminWithdraw;
use crate::instructions::claim_rewards::claim_spec;
use crate::instructions::claim_rewards::ClaimRewards;
use crate::instructions::deposit::deposit_spec;
use crate::instructions::deposit::Deposit;
use crate::instructions::start_rewards::start_rewards_spec;
use crate::instructions::start_rewards::StartRewards;
use crate::instructions::withdraw::lemma_withdrawal_value_bounded;
use crate::instructions::withdraw::withdraw_spec;
use crate::instructions::withdraw::Withdraw;
use crate::oracle::validate_price_spec;
use crate::state::AssetKind;
use crate::state::Identity;
use crate::state::PoolState;
use crate::state::UpdateSolUsdPrice;
use crate::state::UserState;

verus! {

/// The state of the whole vault.
pub struct VaultState {
    /// The pool ledger.
    pub pool: PoolState,
    /// LP shares outstanding.
    pub lp_supply: u64,
    /// Every holder ledger.
    pub holders: Seq<UserState>,
}

/// One operation on the vault. Holder operations name the holder ledger by
/// its place among the ledgers; the share supply that their context carries
/// is not read, the vault's own is.
#[allow(inconsistent_fields)]
pub enum Operation {
    Deposit { holder: int, ctx: Deposit, token_amount: u64 },
    Withdraw { holder: int, ctx: Withdraw, lp_token_amount: u64 },
    ClaimRewards { holder: int, ctx: ClaimRewards },
    StartRewards { ctx: StartRewards, usdc_amount: u64, tokens_per_interval: u64 },
    AdminDeposit { ctx: AdminDeposit, amount: u64 },
    AdminWithdraw { ctx: AdminWithdraw, amount: u64 },
    UpdatePrice { ctx: UpdateSolUsdPrice },
}

/// The vault after one operation. An operation that is rejected, or that
/// names a holder ledger that does not exist, changes nothing.
pub open spec fn step(v: VaultState, op: Operation) -> VaultState {
    match op {
        Operation::Deposit { holder, ctx, token_amount } => {
            if 0 <= holder < v.holders.len() {
                match deposit_spec(
                    Deposit { lp_supply: v.lp_supply, ..ctx },
                    v.pool,
                    v.holders[holder],
                    token_amount,
                ) {
                    Ok((pool, user, shares)) => VaultState {
                        pool,
                        lp_supply: (v.lp_supply + shares) as u64,
                        holders: v.holders.update(holder, user),
                    },
                    Err(_) => v,
                }
            } else {
                v
            }
        },
        Operation::Withdraw { holder, ctx, lp_token_amount } => {
            if 0 <= holder < v.holders.len() {
                match withdraw_spec(
                    Withdraw { lp_supply: v.lp_supply, ..ctx },
                    v.pool,
                    v.holders[holder],
                    lp_token_amount,
                ) {
                    Ok((pool, user, _)) => VaultState {
                        pool,
                        lp_supply: (v.lp_supply - lp_token_amount) as u64,
                        holders: v.holders.update(holder, user),
                    },
                    Err(_) => v,
                }
            } else {
                v
            }
        },
        Operation::ClaimRewards { holder, ctx } => {
            if 0 <= holder < v.holders.len() {
                match claim_spec(ctx, v.pool, v.holders[holder]) {
                    Ok((pool, user, _)) => VaultState {
                        pool,
                        holders: v.holders.update(holder, user),
                        ..v
                    },
                    Err(_) => v,
                }
            } else {
                v
            }
        },
        Operation::StartRewards { ctx, usdc_amount, tokens_per_interval } => {
            match start_rewards_spec(ctx, v.pool, usdc_amount, tokens_per_interval) {
                Ok(pool) => VaultState { pool, ..v },
                Err(_) => v,
            }
        },
        Operation::AdminDeposit { ctx, amount } => {
            match admin_deposit_spec(ctx, v.pool, amount) {
                Ok(pool) => VaultState { pool, ..v },
                Err(_) => v,
            }
        },
        Operation::AdminWithdraw { ctx, amount } => {
            match admin_withdraw_spec(ctx, v.pool, amount) {
                Ok(pool) => VaultState { pool, ..v },
                Err(_) => v,
            }
        },
        Operation::UpdatePrice { ctx } => {
            match validate_price_spec(ctx.round, ctx.now, AssetKind::Volatile) {
                Ok(price) => VaultState { pool: PoolState { sol_usd_price: price, ..v.pool }, ..v },
                Err(_) => v,
            }
        },
    }
}

/// The vault after a sequence of operations, the first one first.
pub open spec fn run(v: VaultState, ops: Seq<Operation>) -> VaultState
    decreases ops.len(),
{
    if ops.len() == 0 {
        v
    } else {
        step(run(v, ops.drop_last()), ops.last())
    }
}

/// The shares that a sequence of holder ledgers records in all.
pub open spec fn total_shares(holders: Seq<UserState>) -> int
    decreases holders.len(),
{
    if holders.len() == 0 {
        0
    } else {
        total_shares(holders.drop_last()) + holders.last().lp_token_balance
    }
}

/// The holder ledgers account for every share outstanding.
pub open spec fn shares_conserved(v: VaultState) -> bool {
    total_shares(v.holders) == v.lp_supply
}

/// Replacing one ledger changes the total by the change of its balance.
pub proof fn lemma_total_shares_update(holders: Seq<UserState>, i: int, user: UserState)
    requires
        0 <= i < holders.len(),
    ensures
        total_shares(holders.update(i, user)) == total_shares(holders)
            - holders[i].lp_token_balance + user.lp_token_balance,
    decreases holders.len(),
{
    let updated = holders.update(i, user);
    if i == holders.len() - 1 {
        assert(updated.drop_last() =~= holders.drop_last());
    } else {
        assert(updated.drop_last() =~= holders.drop_last().update(i, user));
        lemma_total_shares_update(holders.drop_last(), i, user);
    }
}

/// Share conservation, one operation: if the holder ledgers account for
/// every share outstanding, they still do after any operation.
pub proof fn lemma_step_conserves_shares(v: VaultState, op: Operation)
    requires
        shares_conserved(v),
    ensures
        shares_conserved(step(v, op)),
{
    match op {
        Operation::Deposit { holder, ctx, token_amount } => {
            if 0 <= holder < v.holders.len() {
                match deposit_spec(
                    Deposit { lp_supply: v.lp_supply, ..ctx },
                    v.pool,
                    v.holders[holder],
                    token_amount,
                ) {
                    Ok((pool, user, shares)) => {
                        lemma_total_shares_update(v.holders, holder, user);
                    },
                    Err(_) => {},
                }
            }
        },
        Operation::Withdraw { holder, ctx, lp_token_amount } => {
            if 0 <= holder < v.holders.len() {
                match withdraw_spec(
                    Withdraw { lp_supply: v.lp_supply, ..ctx },
                    v.pool,
                    v.holders[holder],
                    lp_token_amount,
                ) {
                    Ok((pool, user, _)) => {
                        lemma_total_shares_update(v.holders, holder, user);
                    },
                    Err(_) => {},
                }
            }
        },
        Operation::ClaimRewards { holder, ctx } => {
            if 0 <= holder < v.holders.len() {
                match claim_spec(ctx, v.pool, v.holders[holder]) {
                    Ok((pool, user, _)) => {
                        lemma_total_shares_update(v.holders, holder, user);
                    },
                    Err(_) => {},
                }
            }
        },
        _ => {},
    }
}

/// Share conservation: if the holder ledgers account for every share
/// outstanding, they still do after any sequence of operations.
pub proof fn lemma_run_conserves_shares(v: VaultState, ops: Seq<Operation>)
    requires
        shares_conserved(v),
    ensures
        shares_conserved(run(v, ops)),
    decreases ops.len(),
{
    if ops.len() > 0 {
        lemma_run_conserves_shares(v, ops.drop_last());
        lemma_step_conserves_shares(run(v, ops.drop_last()), ops.last());
    }
}

/// The reward cap, one operation: a pool that has paid out no more rewards
/// than were funded has not done so after any operation either.
pub proof fn lemma_step_keeps_reward_cap(v: VaultState, op: Operation)
    requires
        v.pool.wf(),
    ensures
        step(v, op).pool.wf(),
{
}

/// The reward cap: the rewards claimed never exceed the rewards funded,
/// whatever operations run and in whatever order.
pub proof fn lemma_run_keeps_reward_cap(v: VaultState, ops: Seq<Operation>)
    requires
        v.pool.wf(),
    ensures
        run(v, ops).pool.wf(),
    decreases ops.len(),
{
    if ops.len() > 0 {
        lemma_run_keeps_reward_cap(v, ops.drop_last());
        lemma_step_keeps_reward_cap(run(v, ops.drop_last()), ops.last());
    }
}

/// What `amount` of the asset behind `vault` is worth in USD at
/// `sol_usd_price`: the stable asset one to one, the volatile asset priced
/// and truncated. A vault that selects no asset holds nothing of worth.
pub open spec fn worth(pool: PoolState, vault: Identity, amount: u64, sol_usd_price: i128)
    -> int {
    match pool.asset_of_spec(vault) {
        Ok(AssetKind::Stable) => amount as int,
        Ok(AssetKind::Volatile) => sol_usd_value(amount, sol_usd_price),
        Err(_) => 0,
    }
}

/// The worth of the tokens that an operation moves into the pool, at the
/// price at which the operation runs; negative where it moves tokens out.
/// An operation that is rejected moves nothing, and neither does a claim, the
/// start of a reward window or a price update.
pub open spec fn net_inflow(v: VaultState, op: Operation) -> int {
    match op {
        Operation::Deposit { holder, ctx, token_amount } => {
            if 0 <= holder < v.holders.len() {
                match deposit_spec(
                    Deposit { lp_supply: v.lp_supply, ..ctx },
                    v.pool,
                    v.holders[holder],
                    token_amount,
                ) {
                    Ok((pool, _, _)) => worth(
                        v.pool,
                        ctx.vault_account,
                        token_amount,
                        pool.sol_usd_price,
                    ),
                    Err(_) => 0,
                }
            } else {
                0
            }
        },
        Operation::Withdraw { holder, ctx, lp_token_amount } => {
            if 0 <= holder < v.holders.len() {
                match withdraw_spec(
                    Withdraw { lp_supply: v.lp_supply, ..ctx },
                    v.pool,
                    v.holders[holder],
                    lp_token_amount,
                ) {
                    Ok((pool, _, paid)) => -worth(
                        v.pool,
                        ctx.vault_account,
                        paid,
                        pool.sol_usd_price,
                    ),
                    Err(_) => 0,
                }
            } else {
                0
            }
        },
        Operation::AdminDeposit { ctx, amount } => {
            match admin_deposit_spec(ctx, v.pool, amount) {
                Ok(_) => worth(v.pool, ctx.vault_account, amount, v.pool.sol_usd_price),
                Err(_) => 0,
            }
        },
        Operation::AdminWithdraw { ctx, amount } => {
            match admin_withdraw_spec(ctx, v.pool, amount) {
                Ok(_) => -worth(v.pool, ctx.vault_account, amount, v.pool.sol_usd_price),
                Err(_) => 0,
            }
        },
        _ => 0,
    }
}

/// The most that truncation can cost in one operation: nothing, except in a
/// withdrawal of the volatile asset, where the amount paid is truncated to
/// whole native units. There it is the worth of one native unit, rounded up
/// to whole USD units.
pub open spec fn truncation_bound(v: VaultState, op: Operation) -> int {
    match op {
        Operation::Withdraw { holder, ctx, lp_token_amount } => {
            if 0 <= holder < v.holders.len() {
                match withdraw_spec(
                    Withdraw { lp_supply: v.lp_supply, ..ctx },
                    v.pool,
                    v.holders[holder],
                    lp_token_amount,
                ) {
                    Ok((pool, _, _)) => match v.pool.asset_of_spec(ctx.vault_account) {
                        Ok(AssetKind::Volatile) => (pool.sol_usd_price + SOL_PRICE_SCALE - 1) / (
                        SOL_PRICE_SCALE as int),
                        _ => 0,
                    },
                    Err(_) => 0,
                }
            } else {
                0
            }
        },
        _ => 0,
    }
}

/// The net inflows of a sequence of operations, each at its own price.
pub open spec fn net_inflows(v: VaultState, ops: Seq<Operation>) -> int
    decreases ops.len(),
{
    if ops.len() == 0 {
        0
    } else {
        net_inflows(v, ops.drop_last()) + net_inflow(run(v, ops.drop_last()), ops.last())
    }
}

/// The truncation bounds of a sequence of operations, added up.
pub open spec fn truncation_bounds(v: VaultState, ops: Seq<Operation>) -> int
    decreases ops.len(),
{
    if ops.len() == 0 {
        0
    } else {
        truncation_bounds(v, ops.drop_last()) + truncation_bound(
            run(v, ops.drop_last()),
            ops.last(),
        )
    }
}

/// Conservation, one operation: the assets under management change by the
/// worth of what the operation moved in or out, up to the truncation bound,
/// and truncation never favours the one who withdraws.
pub proof fn lemma_step_conserves_value(v: VaultState, op: Operation)
    ensures
        truncation_bound(v, op) >= 0,
        v.pool.aum_usd + net_inflow(v, op) - truncation_bound(v, op) <= step(v, op).pool.aum_usd
            <= v.pool.aum_usd + net_inflow(v, op),
{
    match op {
        Operation::Withdraw { holder, ctx, lp_token_amount } => {
            if 0 <= holder < v.holders.len() {
                let full = Withdraw { lp_supply: v.lp_supply, ..ctx };
                match withdraw_spec(full, v.pool, v.holders[holder], lp_token_amount) {
                    Ok((pool, _, paid)) => {
                        lemma_withdrawal_value_bounded(
                            lp_token_amount,
                            v.pool.aum_usd,
                            v.lp_supply,
                        );
                        let usd = v.pool.aum_usd - pool.aum_usd;
                        match v.pool.asset_of_spec(ctx.vault_account) {
                            Ok(AssetKind::Volatile) => {
                                let price = pool.sol_usd_price;
                                let scale = SOL_PRICE_SCALE as int;
                                assert(price > 0);
                                lemma_round_trip_from_usd(usd, price as int, scale);
                                let back = (paid * price) / scale;
                                assert(back == sol_usd_value(paid, price));
                                assert(usd - back <= (price + scale - 1) / scale) by (nonlinear_arith)
                                    requires
                                        (usd - back) * scale < price + scale,
                                        scale > 0,
                                        price > 0,
                                ;
                                assert((price + scale - 1) / scale >= 0) by (nonlinear_arith)
                                    requires
                                        scale > 0,
                                        price > 0,
                                ;
                            },
                            _ => {},
                        }
                    },
                    Err(_) => {},
                }
            }
        },
        _ => {},
    }
}

/// Conservation: after any sequence of operations the assets under
/// management are what they were plus the worth of every token moved in,
/// minus the worth of every token moved out, each at the price of its own
/// operation; up to the truncation bounds of the withdrawals, which the pool
/// keeps.
pub proof fn lemma_run_conserves_value(v: VaultState, ops: Seq<Operation>)
    ensures
        truncation_bounds(v, ops) >= 0,
        v.pool.aum_usd + net_inflows(v, ops) - truncation_bounds(v, ops) <= run(
            v,
            ops,
        ).pool.aum_usd <= v.pool.aum_usd + net_inflows(v, ops),
    decreases ops.len(),
{
    if ops.len() > 0 {
        lemma_run_conserves_value(v, ops.drop_last());
        lemma_step_conserves_value(run(v, ops.drop_last()), ops.last());
    }
}

} // verus!
