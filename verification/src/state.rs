use vstd::prelude::*;
use vstd::std_specs::cmp::PartialEqSpecImpl;
use crate::errors::VaultError;
use crate::fixed_point::from_usd;
use crate::fixed_point::lemma_sol_conversions;
use crate::fixed_point::sol_amount_from_usd;
use crate::fixed_point::sol_usd_value;
use crate::fixed_point::to_usd;
use crate::oracle::PriceObservation;
use crate::fixed_point::PRICE_DECIMALS;
use crate::fixed_point::SOL_DECIMALS;
use crate::fixed_point::USD_DECIMALS;

verus! {

/// A 32-byte identity: a participant, an authority, a vault or a mint. The
/// library only ever compares identities.
#[derive(Clone, Copy, Debug)]
pub struct Identity {
    pub bytes: [u8; 32],
}

impl PartialEq for Identity {
    fn eq(&self, other: &Self) -> (same: bool) {
        let mut i: usize = 0;
        while i < 32
            invariant
                i <= 32,
                forall|j: int| 0 <= j < i ==> self.bytes[j] == other.bytes[j],
            decreases 32 - i,
        {
            if self.bytes[i] != other.bytes[i] {
                return false;
            }
            i = i + 1;
        }
        assert(self.bytes =~= other.bytes);
        true
    }
}

impl Eq for Identity {

}

impl PartialEqSpecImpl for Identity {
    open spec fn obeys_eq_spec() -> bool {
        true
    }

    open spec fn eq_spec(&self, other: &Self) -> bool {
        *self == *other
    }
}

impl Identity {
    pub fn new(bytes: [u8; 32]) -> (id: Identity)
        ensures
            id.bytes == bytes,
    {
        Identity { bytes }
    }

    /// The all-zero identity, which stands for "nobody": storage that has
    /// just been provisioned carries it.
    pub open spec fn is_unassigned_spec(self) -> bool {
        forall|i: int| 0 <= i < 32 ==> self.bytes[i] == 0
    }

    pub fn is_unassigned(&self) -> (unassigned: bool)
        ensures
            unassigned == self.is_unassigned_spec(),
    {
        let mut i: usize = 0;
        while i < 32
            invariant
                i <= 32,
                forall|j: int| 0 <= j < i ==> self.bytes[j] == 0,
            decreases 32 - i,
        {
            if self.bytes[i] != 0 {
                return false;
            }
            i = i + 1;
        }
        true
    }
}

/// The two asset classes the pool holds.
#[derive(Clone, Copy, Debug, PartialEq, Eq, Structural)]
pub enum AssetKind {
    /// The price-volatile asset (SOL), priced by the oracle.
    Volatile,
    /// The stable asset (USDC), counted one to one in USD.
    Stable,
}

/// The pool ledger: one record for the whole pool.
#[derive(Clone, Copy, Debug, PartialEq, Eq)]
pub struct PoolState {
    /// Authority for the admin operations. Set at creation.
    pub admin: Identity,
    /// Custody of the volatile asset.
    pub sol_vault: Identity,
    /// Custody of the stable asset.
    pub usdc_vault: Identity,
    /// The LP share mint.
    pub lp_token_mint: Identity,
    /// Assets under management, in USD with six decimals.
    pub aum_usd: u64,
    /// Volatile asset deposited, nine decimals.
    pub sol_deposited: u64,
    /// Stable asset deposited, six decimals.
    pub usdc_deposited: u64,
    /// Reward units accrued per share per second.
    pub tokens_per_interval: u64,
    /// Start of the reward window (inclusive).
    pub reward_start_time: u64,
    /// End of the reward window (exclusive).
    pub reward_end_time: u64,
    /// Custody of the rewards.
    pub usdc_reward_vault: Identity,
    /// The last accepted price of the volatile asset, eight decimals.
    pub sol_usd_price: i128,
    /// Rewards funded for the current window.
    pub total_rewards_deposited: u64,
    /// Rewards paid out in the current window.
    pub total_rewards_claimed: u64,
    /// While set, deposits and withdrawals are rejected.
    pub paused: bool,
}

impl PoolState {
    /// The pool never pays out more rewards than were funded.
    pub open spec fn wf(self) -> bool {
        self.total_rewards_claimed <= self.total_rewards_deposited
    }

    /// The asset class that a vault reference selects, if any.
    pub open spec fn asset_of_spec(self, vault: Identity) -> Result<AssetKind, VaultError> {
        if vault == self.sol_vault {
            Ok(AssetKind::Volatile)
        } else if vault == self.usdc_vault {
            Ok(AssetKind::Stable)
        } else {
            Err(VaultError::InvalidAssetSelector)
        }
    }

    /// Resolves an asset selector against the pool's two vaults. The volatile
    /// vault is tried first.
    pub fn asset_of(&self, vault: &Identity) -> (asset: Result<AssetKind, VaultError>)
        ensures
            asset == self.asset_of_spec(*vault),
    {
        if *vault == self.sol_vault {
            Ok(AssetKind::Volatile)
        } else if *vault == self.usdc_vault {
            Ok(AssetKind::Stable)
        } else {
            Err(VaultError::InvalidAssetSelector)
        }
    }
}

/// What linking a pool ledger to its accounts arrives with.
#[derive(Clone, Copy, Debug)]
pub struct Initialize {
    /// The pool's admin.
    pub admin: Identity,
    /// Custody of the volatile asset.
    pub sol_vault: Identity,
    /// Custody of the stable asset.
    pub usdc_vault: Identity,
    /// The LP share mint.
    pub lp_token_mint: Identity,
    /// Custody of the rewards.
    pub usdc_reward_vault: Identity,
}

/// What a price update arrives with.
#[derive(Clone, Copy, Debug)]
pub struct UpdateSolUsdPrice {
    /// The feed's latest observation.
    pub round: PriceObservation,
    /// The current time, in seconds.
    pub now: u64,
}

/// The holder ledger: one record per participant.
#[derive(Clone, Copy, Debug, PartialEq, Eq)]
pub struct UserState {
    /// The holder.
    pub owner: Identity,
    /// Shares held.
    pub lp_token_balance: u64,
    /// Time of the last reward checkpoint.
    pub last_claim_timestamp: u64,
    /// Rewards accrued and not yet paid out.
    pub pending_rewards: u64,
}

impl UserState {
    /// A ledger that belongs to nobody and records nothing: what a first
    /// deposit finds where the holder has no ledger yet.
    pub open spec fn is_vacant(self) -> bool {
        self.owner.is_unassigned_spec() && self.lp_token_balance == 0 && self.pending_rewards == 0
    }
}

/// What [`get_sol_usd_value`] returns: the value, or `MathError` when the
/// 128-bit product or the 64-bit value overflows.
pub open spec fn get_sol_usd_value_spec(sol_amount: u64, sol_usd_price: i128) -> Result<
    u64,
    VaultError,
> {
    if sol_usd_price > 0 && (sol_amount * sol_usd_price > u128::MAX || sol_usd_value(
        sol_amount,
        sol_usd_price,
    ) > u64::MAX) {
        Err(VaultError::MathError)
    } else {
        Ok(sol_usd_value(sol_amount, sol_usd_price) as u64)
    }
}

/// What [`get_sol_amount_from_usd`] returns: the amount, or `MathError` when
/// it does not fit in 64 bits.
pub open spec fn get_sol_amount_from_usd_spec(usd_value: u64, sol_usd_price: i128) -> Result<
    u64,
    VaultError,
> {
    if sol_usd_price > 0 && sol_amount_from_usd(usd_value, sol_usd_price) > u64::MAX {
        Err(VaultError::MathError)
    } else {
        Ok(sol_amount_from_usd(usd_value, sol_usd_price) as u64)
    }
}

/// Converts an amount of the volatile asset (nine decimals) to USD (six
/// decimals) at `sol_usd_price` (eight decimals).
///
/// The product is taken in 128 bits and divided by ten to the eleventh,
/// truncating. A price that is zero or negative gives zero. Fails with
/// `MathError` exactly when the product does not fit in 128 bits or the value
/// does not fit in 64.
pub fn get_sol_usd_value(sol_amount: u64, sol_usd_price: i128) -> (usd: Result<u64, VaultError>)
    ensures
        usd == get_sol_usd_value_spec(sol_amount, sol_usd_price),
{
    proof {
        lemma_sol_conversions(sol_amount, sol_usd_price);
    }
    to_usd(sol_amount, sol_usd_price, SOL_DECIMALS, PRICE_DECIMALS, USD_DECIMALS)
}

/// Converts a USD value (six decimals) to an amount of the volatile asset
/// (nine decimals) at `sol_usd_price` (eight decimals).
///
/// The value is multiplied by ten to the eleventh in 128 bits and divided by
/// the price, truncating. A price that is zero or negative gives zero. Fails
/// with `MathError` exactly when the amount does not fit in 64 bits.
pub fn get_sol_amount_from_usd(usd_value: u64, sol_usd_price: i128) -> (sol: Result<
    u64,
    VaultError,
>)
    ensures
        sol == get_sol_amount_from_usd_spec(usd_value, sol_usd_price),
{
    proof {
        lemma_sol_conversions(usd_value, sol_usd_price);
    }
    from_usd(usd_value, sol_usd_price, SOL_DECIMALS, PRICE_DECIMALS, USD_DECIMALS)
}

} // verus!
