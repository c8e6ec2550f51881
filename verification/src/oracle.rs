use vstd::prelude::*;
use crate::errors::VaultError;
use crate::state::AssetKind;

verus! {

/// An observation older than this many seconds is stale.
pub const MAX_PRICE_AGE_SECS: u64 = 60;

/// Hundredths of a percent in one.
pub const BPS_DENOMINATOR: u64 = 10_000;

/// Widest confidence interval accepted for the volatile asset, in
/// hundredths of a percent of the price: one percent.
pub const VOLATILE_CONFIDENCE_BPS: u64 = 100;

/// Widest confidence interval accepted for the stable asset, in hundredths
/// of a percent of the price: a tenth of a percent.
pub const STABLE_CONFIDENCE_BPS: u64 = 10;

/// One dollar at the oracle's eight decimals.
pub const STABLE_PEG_PRICE: i128 = 100_000_000;

/// How far the stable asset may trade from one dollar, at the oracle's eight
/// decimals: a tenth of a percent.
pub const STABLE_PEG_BAND: i128 = 100_000;

/// What the price oracle reports for one asset.
#[derive(Clone, Copy, Debug, PartialEq, Eq, Structural)]
pub struct PriceObservation {
    /// Price in USD, eight decimals.
    pub price: i128,
    /// Half-width of the confidence interval, in the price's unit.
    pub confidence: u64,
    /// When the price was observed, in seconds.
    pub observation_time: u64,
}

/// The confidence tolerance of an asset class.
pub open spec fn confidence_tolerance_bps(asset: AssetKind) -> u64 {
    match asset {
        AssetKind::Volatile => VOLATILE_CONFIDENCE_BPS,
        AssetKind::Stable => STABLE_CONFIDENCE_BPS,
    }
}

/// An observation is stale when it is more than `MAX_PRICE_AGE_SECS` older
/// than `now`. One dated after `now` is not stale.
pub open spec fn is_stale(observation_time: u64, now: u64) -> bool {
    now - observation_time > MAX_PRICE_AGE_SECS
}

/// The confidence interval is too wide when `confidence / price` exceeds the
/// asset's tolerance.
pub open spec fn confidence_too_wide(price: i128, confidence: u64, asset: AssetKind) -> bool {
    confidence * BPS_DENOMINATOR > price * confidence_tolerance_bps(asset)
}

/// The stable asset is off its peg when its price is further than
/// `STABLE_PEG_BAND` from one dollar.
pub open spec fn off_peg(price: i128) -> bool {
    price - STABLE_PEG_PRICE > STABLE_PEG_BAND || STABLE_PEG_PRICE - price > STABLE_PEG_BAND
}

/// The price that an observation yields at `now` for `asset`, or the reason
/// why it is rejected. The checks are made in this order: staleness, sign,
/// confidence, and for the stable asset the peg.
pub open spec fn validate_price_spec(obs: PriceObservation, now: u64, asset: AssetKind) -> Result<
    i128,
    VaultError,
> {
    if is_stale(obs.observation_time, now) {
        Err(VaultError::StaleOracle)
    } else if obs.price <= 0 {
        Err(VaultError::InvalidOraclePrice)
    } else if confidence_too_wide(obs.price, obs.confidence, asset) {
        Err(VaultError::PriceConfidenceTooWide)
    } else if asset == AssetKind::Stable && off_peg(obs.price) {
        Err(VaultError::StableAssetDepegged)
    } else {
        Ok(obs.price)
    }
}

/// Accepts or rejects a price observation.
pub fn validate_price(obs: &PriceObservation, now: u64, asset: AssetKind) -> (price: Result<
    i128,
    VaultError,
>)
    ensures
        price == validate_price_spec(*obs, now, asset),
{
    if now > obs.observation_time && now - obs.observation_time > MAX_PRICE_AGE_SECS {
        return Err(VaultError::StaleOracle);
    }
    if obs.price <= 0 {
        return Err(VaultError::InvalidOraclePrice);
    }
    let tolerance: u64 = match asset {
        AssetKind::Volatile => VOLATILE_CONFIDENCE_BPS,
        AssetKind::Stable => STABLE_CONFIDENCE_BPS,
    };
    let spread: u128 = obs.confidence as u128 * BPS_DENOMINATOR as u128;
    let too_wide = match (obs.price as u128).checked_mul(tolerance as u128) {
        Some(allowed) => spread > allowed,
        None => false,
    };
    if too_wide {
        return Err(VaultError::PriceConfidenceTooWide);
    }
    match asset {
        AssetKind::Volatile => Ok(obs.price),
        AssetKind::Stable => {
            let deviation: i128 = if obs.price >= STABLE_PEG_PRICE {
                obs.price - STABLE_PEG_PRICE
            } else {
                STABLE_PEG_PRICE - obs.price
            };
            if deviation > STABLE_PEG_BAND {
                Err(VaultError::StableAssetDepegged)
            } else {
                Ok(obs.price)
            }
        },
    }
}

} // verus!
