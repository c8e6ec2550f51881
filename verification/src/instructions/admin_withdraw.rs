use vstd::prelude::*;
use crate::errors::VaultError;
use crate::instructions::helpers::asset_value;
use crate::instructions::helpers::asset_value_spec;
use crate::state::Identity;
use crate::state::PoolState;

verus! {

/// What an admin withdrawal arrives with, besides the pool ledger and the
/// amount.
#[derive(Clone, Copy, Debug)]
pub struct AdminWithdraw {
    /// The caller, who must be the pool's admin.
    pub admin: Identity,
    /// The vault that pays out; it selects the asset.
    pub vault_account: Identity,
}

/// What an admin withdrawal does to the pool ledger.
///
/// Only the admin may make one, and the vault must select an asset. The
/// amount, valued at the pool's last known price where the asset is the
/// volatile one, is taken off the assets under management, which must cover
/// it. No shares are burnt, so every share is worth less afterwards.
pub open spec fn admin_withdraw_spec(ctx: AdminWithdraw, pool: PoolState, amount: u64) -> Result<
    PoolState,
    VaultError,
> {
    if ctx.admin != pool.admin {
        Err(VaultError::Unauthorized)
    } else {
        match pool.asset_of_spec(ctx.vault_account) {
            Err(e) => Err(e),
            Ok(asset) => match asset_value_spec(asset, amount, pool.sol_usd_price) {
                Err(e) => Err(e),
                Ok(usd) => if usd > pool.aum_usd {
                    Err(VaultError::MathError)
                } else {
                    Ok(PoolState { aum_usd: (pool.aum_usd - usd) as u64, ..pool })
                },
            },
        }
    }
}

/// Books tokens that the admin takes out of a vault, such as market-making
/// losses. The caller moves `amount` out of the vault. A rejected call
/// leaves the ledger as it was.
pub fn handle_admin_withdraw(ctx: &AdminWithdraw, pool_state: &mut PoolState, amount: u64) -> (done:
    Result<(), VaultError>)
    ensures
        match admin_withdraw_spec(*ctx, *old(pool_state), amount) {
            Ok(pool) => done == Ok::<(), VaultError>(()) && *final(pool_state) == pool,
            Err(e) => done == Err::<(), VaultError>(e) && *final(pool_state) == *old(pool_state),
        },
        old(pool_state).wf() ==> final(pool_state).wf(),
{
    if !(ctx.admin == pool_state.admin) {
        return Err(VaultError::Unauthorized);
    }
    let asset = match pool_state.asset_of(&ctx.vault_account) {
        Ok(a) => a,
        Err(e) => {
            return Err(e);
        },
    };
    let usd = match asset_value(asset, amount, pool_state.sol_usd_price) {
        Ok(v) => v,
        Err(e) => {
            return Err(e);
        },
    };
    match pool_state.aum_usd.checked_sub(usd) {
        Some(aum_usd) => {
            pool_state.aum_usd = aum_usd;
            Ok(())
        },
        None => Err(VaultError::MathError),
    }
}

} // verus!
