use vstd::prelude::*;
use crate::errors::VaultError;
use crate::instructions::helpers::asset_value;
use crate::instructions::helpers::asset_value_spec;
use crate::state::Identity;
use crate::state::PoolState;

verus! {

/// What an admin deposit arrives with, besides the pool ledger and the
/// amount.
#[derive(Clone, Copy, Debug)]
pub struct AdminDeposit {
    /// The caller, who must be the pool's admin.
    pub admin: Identity,
    /// The vault that receives the tokens; it selects the asset.
    pub vault_account: Identity,
}

/// What an admin deposit does to the pool ledger.
///
/// Only the admin may make one, and the vault must select an asset. The
/// amount, valued at the pool's last known price where the asset is the
/// volatile one, is added to the assets under management. No shares are
/// issued, so every share is worth more afterwards.
pub open spec fn admin_deposit_spec(ctx: AdminDeposit, pool: PoolState, amount: u64) -> Result<
    PoolState,
    VaultError,
> {
    if ctx.admin != pool.admin {
        Err(VaultError::Unauthorized)
    } else {
        match pool.asset_of_spec(ctx.vault_account) {
            Err(e) => Err(e),
            Ok(asset) => match asset_value_spec(asset, amount, pool.sol_usd_price) {
                Err(e) => Err(e),
                Ok(usd) => if pool.aum_usd + usd > u64::MAX {
                    Err(VaultError::MathError)
                } else {
                    Ok(PoolState { aum_usd: (pool.aum_usd + usd) as u64, ..pool })
                },
            },
        }
    }
}

/// Books tokens that the admin adds to a vault, such as market-making
/// profits. The caller moves `amount` into the vault. A rejected call leaves
/// the ledger as it was.
pub fn handle(ctx: &AdminDeposit, pool_state: &mut PoolState, amount: u64) -> (done: Result<
    (),
    VaultError,
>)
    ensures
        match admin_deposit_spec(*ctx, *old(pool_state), amount) {
            Ok(pool) => done == Ok::<(), VaultError>(()) && *final(pool_state) == pool,
            Err(e) => done == Err::<(), VaultError>(e) && *final(pool_state) == *old(pool_state),
        },
        old(pool_state).wf() ==> final(pool_state).wf(),
{
    if !(ctx.admin == pool_state.admin) {
        return Err(VaultError::Unauthorized);
    }
    let asset = match pool_state.asset_of(&ctx.vault_account) {
        Ok(a) => a,
        Err(e) => {
            return Err(e);
        },
    };
    let usd = match asset_value(asset, amount, pool_state.sol_usd_price) {
        Ok(v) => v,
        Err(e) => {
            return Err(e);
        },
    };
    match pool_state.aum_usd.checked_add(usd) {
        Some(aum_usd) => {
            pool_state.aum_usd = aum_usd;
            Ok(())
        },
        None => Err(VaultError::MathError),
    }
}

} // verus!
