//! Accounting core of a pooled-custody vault.
//!
//! The pool holds a price-volatile asset (SOL, nine decimals) and a stable
//! asset (USDC, six decimals), issues LP shares against deposits, and pays a
//! time-windowed linear reward to share holders. Every operation here is a
//! function from ledgers and plain inputs to ledgers and the amounts that the
//! caller has to move; moving tokens, reading the clock and reading the price
//! feed are the caller's business.
pub mod errors;
pub mod fixed_point;
pub mod instructions;
pub mod ledger;
pub mod oracle;
pub mod sol_usd_price_feed;
pub mod state;
pub mod vault;
