use vstd::prelude::*;

verus! {

/// Why an operation was rejected. A rejected operation changes no ledger.
#[derive(Clone, Copy, Debug, PartialEq, Eq, Structural)]
pub enum VaultError {
    /// The holder asked to redeem more shares than the ledger records.
    InsufficientLpBalance,
    /// The caller is not the authority that the operation asks for.
    Unauthorized,
    /// A checked arithmetic step overflowed, underflowed or met a zero divisor.
    MathError,
    /// The reward period is over.
    RewardsEnded,
    /// The asset reference matches neither of the pool's vaults.
    InvalidAssetSelector,
    /// The price observation is older than the staleness threshold.
    StaleOracle,
    /// The confidence interval is too wide next to the price.
    PriceConfidenceTooWide,
    /// The price is missing, zero or negative.
    InvalidOraclePrice,
    /// The stable asset trades outside the band around one dollar.
    StableAssetDepegged,
    /// Deposits and withdrawals are suspended.
    ProgramPaused,
}

impl VaultError {
    /// The text shown to a user for each error.
    pub open spec fn message_spec(self) -> Seq<char> {
        match self {
            VaultError::InsufficientLpBalance => "User has insufficient LP token balance."@,
            VaultError::Unauthorized => "Only admin can call this function."@,
            VaultError::MathError => "Overflow or math error."@,
            VaultError::RewardsEnded => "Rewards have ended."@,
            VaultError::InvalidAssetSelector => "Invalid token mint provided."@,
            VaultError::StaleOracle => "Oracle price is stale."@,
            VaultError::PriceConfidenceTooWide => "Oracle price confidence interval is too wide."@,
            VaultError::InvalidOraclePrice => "Oracle price is missing or not positive."@,
            VaultError::StableAssetDepegged => "Stable asset price is outside its peg band."@,
            VaultError::ProgramPaused => "Program is paused."@,
        }
    }

    pub fn message(&self) -> (text: String)
        ensures
            text@ == self.message_spec(),
    {
        match self {
            VaultError::InsufficientLpBalance => "User has insufficient LP token balance.".to_owned(),
            VaultError::Unauthorized => "Only admin can call this function.".to_owned(),
            VaultError::MathError => "Overflow or math error.".to_owned(),
            VaultError::RewardsEnded => "Rewards have ended.".to_owned(),
            VaultError::InvalidAssetSelector => "Invalid token mint provided.".to_owned(),
            VaultError::StaleOracle => "Oracle price is stale.".to_owned(),
            VaultError::PriceConfidenceTooWide => "Oracle price confidence interval is too wide.".to_owned(),
            VaultError::InvalidOraclePrice => "Oracle price is missing or not positive.".to_owned(),
            VaultError::StableAssetDepegged => "Stable asset price is outside its peg band.".to_owned(),
            VaultError::ProgramPaused => "Program is paused.".to_owned(),
        }
    }
}

} // verus!
