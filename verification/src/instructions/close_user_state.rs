use vstd::prelude::*;
use crate::errors::VaultError;
use crate::state::Identity;
use crate::state::PoolState;
use crate::state::UserState;

verus! {

/// What the closing of a holder ledger arrives with.
#[derive(Clone, Copy, Debug)]
pub struct CloseUserState {
    /// The caller: the holder, or the pool's admin.
    pub user: Identity,
}

/// Decides whether the caller may close a holder ledger: its owner may, and
/// so may the pool's admin. The result tells whether the admin did it.
/// Releasing the storage is the caller's business.
pub fn handle_close_user_state(
    ctx: &CloseUserState,
    pool_state: &PoolState,
    user_state: &UserState,
) -> (closed_by_admin: Result<bool, VaultError>)
    ensures
        ctx.user == user_state.owner || ctx.user == pool_state.admin ==> closed_by_admin == Ok::<
            bool,
            VaultError,
        >(ctx.user == pool_state.admin),
        ctx.user != user_state.owner && ctx.user != pool_state.admin ==> closed_by_admin == Err::<
            bool,
            VaultError,
        >(VaultError::Unauthorized),
{
    if ctx.user == pool_state.admin {
        Ok(true)
    } else if ctx.user == user_state.owner {
        Ok(false)
    } else {
        Err(VaultError::Unauthorized)
    }
}

} // verus!
