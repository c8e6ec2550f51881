//! One module per operation on the ledgers.
pub mod admin_deposit;
pub mod admin_withdraw;
pub mod claim_rewards;
pub mod close_pool;
pub mod close_user_state;
pub mod deposit;
pub mod helpers;
pub mod initialize;
pub mod initialize_user;
pub mod start_rewards;
pub mod withdraw;
