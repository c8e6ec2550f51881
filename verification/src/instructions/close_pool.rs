use vstd::prelude::*;
use crate::errors::VaultError;
use crate::state::Identity;
use crate::state::PoolState;

verus! {

/// What the closing of the pool arrives with.
#[derive(Clone, Copy, Debug)]
pub struct ClosePool {
    /// The caller, who must be the pool's admin.
    pub admin: Identity,
}

/// Decides whether the caller may close the pool ledger: only its admin may.
/// Releasing the storage is the caller's business.
pub fn handle_close_pool(ctx: &ClosePool, pool_state: &PoolState) -> (done: Result<(), VaultError>)
    ensures
        ctx.admin == pool_state.admin ==> done == Ok::<(), VaultError>(()),
        ctx.admin != pool_state.admin ==> done == Err::<(), VaultError>(VaultError::Unauthorized),
{
    if ctx.admin == pool_state.admin {
        Ok(())
    } else {
        Err(VaultError::Unauthorized)
    }
}

} // verus!
