use solana_liquidity_pool::errors::VaultError;
use solana_liquidity_pool::instructions::deposit::handle_deposit;
use solana_liquidity_pool::instructions::deposit::shares_to_mint;
use solana_liquidity_pool::instructions::deposit::Deposit;
use solana_liquidity_pool::instructions::initialize::handle as initialize_pool;
use solana_liquidity_pool::instructions::initialize::Initialize;
use solana_liquidity_pool::instructions::initialize_user::handle_initialize_user;
use solana_liquidity_pool::instructions::initialize_user::InitializeUser;
use solana_liquidity_pool::instructions::start_rewards::handle_start_rewards;
use solana_liquidity_pool::instructions::start_rewards::StartRewards;
use solana_liquidity_pool::instructions::withdraw::handle_withdraw;
use solana_liquidity_pool::instructions::withdraw::withdrawal_value;
use solana_liquidity_pool::instructions::withdraw::Withdraw;
use solana_liquidity_pool::oracle::PriceObservation;
use solana_liquidity_pool::state::get_sol_usd_value;
use solana_liquidity_pool::state::AssetKind;
use solana_liquidity_pool::state::Identity;
use solana_liquidity_pool::state::PoolState;
use solana_liquidity_pool::state::UserState;

const NOW: u64 = 2_000_000;
const PRICE_150_USD: i128 = 15_000_000_000;
const PRICE_160_USD: i128 = 16_000_000_000;
const PRICE_700_USD: i128 = 70_000_000_000;

fn id(tag: u8) -> Identity {
    Identity::new([tag; 32])
}

fn admin() -> Identity {
    id(1)
}

fn sol_vault() -> Identity {
    id(2)
}

fn usdc_vault() -> Identity {
    id(3)
}

fn alice() -> Identity {
    id(10)
}

fn bob() -> Identity {
    id(11)
}

fn new_pool() -> PoolState {
    initialize_pool(&Initialize {
        admin: admin(),
        sol_vault: sol_vault(),
        usdc_vault: usdc_vault(),
        usdc_reward_vault: id(4),
        lp_token_mint: id(5),
    })
}

fn new_holder(owner: Identity) -> UserState {
    handle_initialize_user(&InitializeUser { user: owner, now: NOW })
}

fn fresh(price: i128) -> Option<PriceObservation> {
    Some(PriceObservation { price, confidence: 0, observation_time: NOW })
}

fn usdc_deposit(user: Identity, lp_supply: u64) -> Deposit {
    Deposit { user, vault_account: usdc_vault(), lp_supply, price_feed: None, now: NOW }
}

fn sol_deposit(user: Identity, lp_supply: u64, price: i128) -> Deposit {
    Deposit { user, vault_account: sol_vault(), lp_supply, price_feed: fresh(price), now: NOW }
}

fn usdc_withdrawal(user: Identity, lp_supply: u64) -> Withdraw {
    Withdraw { user, vault_account: usdc_vault(), lp_supply, price_feed: None, now: NOW }
}

fn sol_withdrawal(user: Identity, lp_supply: u64, price: i128) -> Withdraw {
    Withdraw { user, vault_account: sol_vault(), lp_supply, price_feed: fresh(price), now: NOW }
}

#[test]
fn new_pool_is_empty_and_open() {
    let pool = new_pool();
    assert_eq!(pool.admin, admin());
    assert_eq!(pool.sol_vault, sol_vault());
    assert_eq!(pool.usdc_vault, usdc_vault());
    assert_eq!(pool.usdc_reward_vault, id(4));
    assert_eq!(pool.lp_token_mint, id(5));
    assert_eq!(pool.aum_usd, 0);
    assert_eq!(pool.sol_deposited, 0);
    assert_eq!(pool.usdc_deposited, 0);
    assert_eq!(pool.tokens_per_interval, 0);
    assert_eq!(pool.reward_start_time, 0);
    assert_eq!(pool.reward_end_time, 0);
    assert_eq!(pool.sol_usd_price, 0);
    assert_eq!(pool.total_rewards_deposited, 0);
    assert_eq!(pool.total_rewards_claimed, 0);
    assert!(!pool.paused);
}

#[test]
fn new_holder_ledger_is_empty_with_the_checkpoint_at_now() {
    let user = new_holder(alice());
    assert_eq!(
        user,
        UserState {
            owner: alice(),
            lp_token_balance: 0,
            last_claim_timestamp: NOW,
            pending_rewards: 0
        }
    );
}

#[test]
fn asset_selector_resolves_the_two_vaults_only() {
    let pool = new_pool();
    assert_eq!(pool.asset_of(&sol_vault()), Ok(AssetKind::Volatile));
    assert_eq!(pool.asset_of(&usdc_vault()), Ok(AssetKind::Stable));
    assert_eq!(pool.asset_of(&id(4)), Err(VaultError::InvalidAssetSelector));
    assert_eq!(pool.asset_of(&admin()), Err(VaultError::InvalidAssetSelector));
}

#[test]
fn identities_differing_in_one_byte_are_different() {
    let mut bytes = [7u8; 32];
    let a = Identity::new(bytes);
    bytes[31] = 8;
    let b = Identity::new(bytes);
    assert_ne!(a, b);
    assert_eq!(a, Identity::new([7u8; 32]));
    assert!(Identity::new([0u8; 32]).is_unassigned());
    assert!(!b.is_unassigned());
    let mut bytes = [0u8; 32];
    bytes[17] = 1;
    assert!(!Identity::new(bytes).is_unassigned());
}

#[test]
fn bootstrap_deposit_mints_one_share_per_usd_unit() {
    let mut pool = new_pool();
    let mut holder = new_holder(alice());
    let minted = handle_deposit(&usdc_deposit(alice(), 0), &mut pool, &mut holder, 1_000_000);
    assert_eq!(minted, Ok(1_000_000));
    assert_eq!(pool.aum_usd, 1_000_000);
    assert_eq!(pool.usdc_deposited, 1_000_000);
    assert_eq!(pool.sol_deposited, 0);
    assert_eq!(holder.lp_token_balance, 1_000_000);
    assert_eq!(holder.owner, alice());
}

#[test]
fn second_deposit_mints_in_proportion_to_the_pool_before_it() {
    let mut pool = new_pool();
    let mut first = new_holder(alice());
    let mut second = new_holder(bob());
    assert_eq!(
        handle_deposit(&usdc_deposit(alice(), 0), &mut pool, &mut first, 1_000_000),
        Ok(1_000_000)
    );
    assert_eq!(pool.aum_usd, 1_000_000);
    let minted = handle_deposit(&usdc_deposit(bob(), 1_000_000), &mut pool, &mut second, 500_000);
    assert_eq!(minted, Ok(500_000));
    assert_eq!(second.lp_token_balance, 500_000);
    assert_eq!(first.lp_token_balance, 1_000_000);
    assert_eq!(pool.aum_usd, 1_500_000);
    assert_eq!(pool.usdc_deposited, 1_500_000);
}

#[test]
fn shares_are_priced_against_the_pool_before_the_deposit() {
    // 250_000 USD units into a pool of 1_500_000 with 1_200_000 shares.
    assert_eq!(shares_to_mint(250_000, 1_200_000, 1_500_000), Ok(200_000));
    // Priced after the deposit it would be 250_000 * 1_200_000 / 1_750_000 = 171_428.
    assert_ne!(shares_to_mint(250_000, 1_200_000, 1_500_000), Ok(171_428));
    assert_eq!(shares_to_mint(10, 3, 7), Ok(4));
    assert_eq!(shares_to_mint(123, 0, 0), Ok(123));
    assert_eq!(shares_to_mint(123, 0, 999), Ok(123));
    assert_eq!(shares_to_mint(0, 5, 5), Ok(0));
}

#[test]
fn shares_outstanding_against_an_empty_pool_are_a_math_error() {
    assert_eq!(shares_to_mint(1_000, 5, 0), Err(VaultError::MathError));
    let mut pool = new_pool();
    let mut holder = new_holder(alice());
    let pool_before = pool;
    let holder_before = holder;
    assert_eq!(
        handle_deposit(&usdc_deposit(alice(), 5), &mut pool, &mut holder, 1_000),
        Err(VaultError::MathError)
    );
    assert_eq!(pool, pool_before);
    assert_eq!(holder, holder_before);
}

#[test]
fn share_product_beyond_64_bits_is_a_math_error() {
    assert_eq!(shares_to_mint(5_000_000_000, 5_000_000_000, 5_000_000_000), Err(VaultError::MathError));
    assert_eq!(shares_to_mint(u64::MAX, 1, 1), Ok(u64::MAX));
    assert_eq!(shares_to_mint(u64::MAX, 2, u64::MAX), Err(VaultError::MathError));
}

#[test]
fn volatile_deposit_is_priced_by_the_oracle_and_stores_the_price() {
    let mut pool = new_pool();
    let mut holder = new_holder(alice());
    let minted =
        handle_deposit(&sol_deposit(alice(), 0, PRICE_150_USD), &mut pool, &mut holder, 2_000_000_000);
    assert_eq!(minted, Ok(300_000_000));
    assert_eq!(pool.aum_usd, 300_000_000);
    assert_eq!(pool.sol_deposited, 2_000_000_000);
    assert_eq!(pool.usdc_deposited, 0);
    assert_eq!(pool.sol_usd_price, PRICE_150_USD);
    assert_eq!(holder.lp_token_balance, 300_000_000);
}

#[test]
fn stable_deposit_leaves_the_stored_price_alone() {
    let mut pool = new_pool();
    pool.sol_usd_price = PRICE_150_USD;
    let mut holder = new_holder(alice());
    let mut ctx = usdc_deposit(alice(), 0);
    ctx.price_feed = fresh(PRICE_160_USD);
    assert_eq!(handle_deposit(&ctx, &mut pool, &mut holder, 1_000), Ok(1_000));
    assert_eq!(pool.sol_usd_price, PRICE_150_USD);
}

#[test]
fn deposit_worth_less_than_one_usd_unit_mints_nothing_and_succeeds() {
    let mut pool = new_pool();
    let mut holder = new_holder(alice());
    let minted = handle_deposit(&sol_deposit(alice(), 0, PRICE_150_USD), &mut pool, &mut holder, 1);
    assert_eq!(minted, Ok(0));
    assert_eq!(pool.aum_usd, 0);
    assert_eq!(pool.sol_deposited, 1);
    assert_eq!(holder.lp_token_balance, 0);
}

#[test]
fn deposit_of_nothing_mints_nothing() {
    let mut pool = new_pool();
    let mut holder = new_holder(alice());
    let before = pool;
    assert_eq!(handle_deposit(&usdc_deposit(alice(), 0), &mut pool, &mut holder, 0), Ok(0));
    assert_eq!(pool, before);
}

#[test]
fn stale_observation_stops_a_volatile_deposit() {
    let mut pool = new_pool();
    let mut holder = new_holder(alice());
    holder.last_claim_timestamp = NOW - 5_000;
    let pool_before = pool;
    let holder_before = holder;
    let ctx = Deposit {
        user: alice(),
        vault_account: sol_vault(),
        lp_supply: 0,
        price_feed: Some(PriceObservation {
            price: PRICE_150_USD,
            confidence: 0,
            observation_time: NOW - 61,
        }),
        now: NOW,
    };
    assert_eq!(
        handle_deposit(&ctx, &mut pool, &mut holder, 2_000_000_000),
        Err(VaultError::StaleOracle)
    );
    assert_eq!(pool, pool_before);
    assert_eq!(holder, holder_before);
}

#[test]
fn volatile_deposit_needs_an_observation() {
    let mut pool = new_pool();
    pool.sol_usd_price = PRICE_150_USD;
    let mut holder = new_holder(alice());
    let pool_before = pool;
    let ctx = Deposit {
        user: alice(),
        vault_account: sol_vault(),
        lp_supply: 0,
        price_feed: None,
        now: NOW,
    };
    assert_eq!(
        handle_deposit(&ctx, &mut pool, &mut holder, 2_000_000_000),
        Err(VaultError::InvalidOraclePrice)
    );
    assert_eq!(pool, pool_before);
}

#[test]
fn volatile_deposit_rejects_bad_observations() {
    let mut pool = new_pool();
    let mut holder = new_holder(alice());
    let pool_before = pool;
    for (price, confidence, expected) in [
        (0, 0, VaultError::InvalidOraclePrice),
        (-PRICE_150_USD, 0, VaultError::InvalidOraclePrice),
        (PRICE_150_USD, 150_000_001, VaultError::PriceConfidenceTooWide),
    ] {
        let ctx = Deposit {
            user: alice(),
            vault_account: sol_vault(),
            lp_supply: 0,
            price_feed: Some(PriceObservation { price, confidence, observation_time: NOW }),
            now: NOW,
        };
        assert_eq!(handle_deposit(&ctx, &mut pool, &mut holder, 2_000_000_000), Err(expected));
        assert_eq!(pool, pool_before);
        assert_eq!(holder, new_holder(alice()));
    }
}

#[test]
fn paused_pool_rejects_deposits_and_withdrawals() {
    let mut pool = new_pool();
    let mut holder = new_holder(alice());
    assert_eq!(handle_deposit(&usdc_deposit(alice(), 0), &mut pool, &mut holder, 1_000), Ok(1_000));
    pool.paused = true;
    let pool_before = pool;
    let holder_before = holder;
    assert_eq!(
        handle_deposit(&usdc_deposit(alice(), 1_000), &mut pool, &mut holder, 1_000),
        Err(VaultError::ProgramPaused)
    );
    assert_eq!(
        handle_withdraw(&usdc_withdrawal(alice(), 1_000), &mut pool, &mut holder, 10),
        Err(VaultError::ProgramPaused)
    );
    assert_eq!(pool, pool_before);
    assert_eq!(holder, holder_before);
}

#[test]
fn unknown_vault_is_an_invalid_asset_selector() {
    let mut pool = new_pool();
    let mut holder = new_holder(alice());
    assert_eq!(handle_deposit(&usdc_deposit(alice(), 0), &mut pool, &mut holder, 1_000), Ok(1_000));
    let pool_before = pool;
    let holder_before = holder;
    let deposit = Deposit { vault_account: id(99), ..usdc_deposit(alice(), 1_000) };
    assert_eq!(
        handle_deposit(&deposit, &mut pool, &mut holder, 1_000),
        Err(VaultError::InvalidAssetSelector)
    );
    let withdrawal = Withdraw { vault_account: id(99), ..usdc_withdrawal(alice(), 1_000) };
    assert_eq!(
        handle_withdraw(&withdrawal, &mut pool, &mut holder, 10),
        Err(VaultError::InvalidAssetSelector)
    );
    assert_eq!(pool, pool_before);
    assert_eq!(holder, holder_before);
}

#[test]
fn first_deposit_takes_over_a_vacant_ledger() {
    let mut pool = new_pool();
    let mut holder = UserState {
        owner: Identity::new([0; 32]),
        lp_token_balance: 0,
        last_claim_timestamp: 0,
        pending_rewards: 0,
    };
    assert_eq!(handle_deposit(&usdc_deposit(alice(), 0), &mut pool, &mut holder, 1_000), Ok(1_000));
    assert_eq!(
        holder,
        UserState {
            owner: alice(),
            lp_token_balance: 1_000,
            last_claim_timestamp: NOW,
            pending_rewards: 0
        }
    );
}

#[test]
fn deposit_on_another_holders_ledger_is_unauthorized() {
    let mut pool = new_pool();
    let mut holder = new_holder(alice());
    let pool_before = pool;
    let holder_before = holder;
    assert_eq!(
        handle_deposit(&usdc_deposit(bob(), 0), &mut pool, &mut holder, 1_000),
        Err(VaultError::Unauthorized)
    );
    assert_eq!(pool, pool_before);
    assert_eq!(holder, holder_before);
    let mut unowned_with_shares = UserState {
        owner: Identity::new([0; 32]),
        lp_token_balance: 5,
        last_claim_timestamp: 0,
        pending_rewards: 0,
    };
    assert_eq!(
        handle_deposit(&usdc_deposit(bob(), 0), &mut pool, &mut unowned_with_shares, 1_000),
        Err(VaultError::Unauthorized)
    );
}

#[test]
fn deposit_accrues_rewards_on_the_shares_held_before_it() {
    let mut pool = new_pool();
    let start = StartRewards { admin: admin(), now: NOW - 1_000 };
    assert_eq!(handle_start_rewards(&start, &mut pool, 1_000_000_000, 10), Ok(()));
    let mut holder = new_holder(alice());
    holder.last_claim_timestamp = NOW - 100;
    holder.lp_token_balance = 500_000;
    pool.aum_usd = 500_000;
    pool.usdc_deposited = 500_000;
    assert_eq!(
        handle_deposit(&usdc_deposit(alice(), 500_000), &mut pool, &mut holder, 100_000),
        Ok(100_000)
    );
    assert_eq!(holder.pending_rewards, 500_000 * 10 * 100);
    assert_eq!(holder.last_claim_timestamp, NOW);
    assert_eq!(holder.lp_token_balance, 600_000);
}

#[test]
fn deposit_that_cannot_accrue_fails_and_changes_nothing() {
    let mut pool = new_pool();
    let start = StartRewards { admin: admin(), now: NOW - 1_000 };
    assert_eq!(handle_start_rewards(&start, &mut pool, 1_000_000_000, u64::MAX), Ok(()));
    let mut holder = new_holder(alice());
    holder.last_claim_timestamp = NOW - 100;
    holder.lp_token_balance = u64::MAX / 2;
    let pool_before = pool;
    let holder_before = holder;
    assert_eq!(
        handle_deposit(&usdc_deposit(alice(), 0), &mut pool, &mut holder, 100_000),
        Err(VaultError::MathError)
    );
    assert_eq!(pool, pool_before);
    assert_eq!(holder, holder_before);
}

#[test]
fn deposit_that_overflows_a_total_fails_and_changes_nothing() {
    let mut pool = new_pool();
    pool.aum_usd = u64::MAX - 10;
    let mut holder = new_holder(alice());
    let pool_before = pool;
    let holder_before = holder;
    assert_eq!(
        handle_deposit(&usdc_deposit(alice(), 0), &mut pool, &mut holder, 11),
        Err(VaultError::MathError)
    );
    assert_eq!(pool, pool_before);
    assert_eq!(holder, holder_before);
    assert_eq!(handle_deposit(&usdc_deposit(alice(), 0), &mut pool, &mut holder, 10), Ok(10));
    assert_eq!(pool.aum_usd, u64::MAX);

    let mut pool = new_pool();
    pool.usdc_deposited = u64::MAX;
    let pool_before = pool;
    let mut holder = new_holder(alice());
    assert_eq!(
        handle_deposit(&usdc_deposit(alice(), 0), &mut pool, &mut holder, 1),
        Err(VaultError::MathError)
    );
    assert_eq!(pool, pool_before);

    let mut pool = new_pool();
    pool.aum_usd = 1;
    let pool_before = pool;
    let mut holder = new_holder(alice());
    // One USD unit buys u64::MAX shares, which the supply cannot take.
    assert_eq!(
        handle_deposit(&usdc_deposit(alice(), u64::MAX), &mut pool, &mut holder, 1),
        Err(VaultError::MathError)
    );
    assert_eq!(pool, pool_before);
}

#[test]
fn withdrawal_of_more_shares_than_held_is_rejected_and_changes_nothing() {
    let mut pool = new_pool();
    let mut holder = new_holder(alice());
    assert_eq!(
        handle_deposit(&usdc_deposit(alice(), 0), &mut pool, &mut holder, 1_000_000),
        Ok(1_000_000)
    );
    let pool_before = pool;
    let holder_before = holder;
    let mut later = usdc_withdrawal(alice(), 1_000_000);
    later.now = NOW + 500;
    assert_eq!(
        handle_withdraw(&later, &mut pool, &mut holder, 1_000_001),
        Err(VaultError::InsufficientLpBalance)
    );
    assert_eq!(pool, pool_before);
    assert_eq!(holder, holder_before);
}

#[test]
fn stable_withdrawal_pays_the_shares_part_of_the_pool() {
    let mut pool = new_pool();
    let mut first = new_holder(alice());
    let mut second = new_holder(bob());
    assert_eq!(
        handle_deposit(&usdc_deposit(alice(), 0), &mut pool, &mut first, 1_000_000),
        Ok(1_000_000)
    );
    assert_eq!(
        handle_deposit(&usdc_deposit(bob(), 1_000_000), &mut pool, &mut second, 500_000),
        Ok(500_000)
    );
    let paid = handle_withdraw(&usdc_withdrawal(alice(), 1_500_000), &mut pool, &mut first, 300_000);
    assert_eq!(paid, Ok(300_000));
    assert_eq!(first.lp_token_balance, 700_000);
    assert_eq!(pool.aum_usd, 1_200_000);
    assert_eq!(pool.usdc_deposited, 1_200_000);
}

#[test]
fn withdrawal_value_truncates_and_floors_the_supply_at_one() {
    assert_eq!(withdrawal_value(300_000, 1_500_000, 1_500_000), Ok(300_000));
    assert_eq!(withdrawal_value(1, 10, 3), Ok(3));
    assert_eq!(withdrawal_value(2, 10, 3), Ok(6));
    assert_eq!(withdrawal_value(0, 10, 0), Ok(0));
    assert_eq!(withdrawal_value(7, 10, 0), Ok(70));
    assert_eq!(withdrawal_value(7, 10, 1), Ok(70));
    assert_eq!(withdrawal_value(u64::MAX, 1, 1), Ok(u64::MAX));
    assert_eq!(withdrawal_value(u64::MAX, 2, u64::MAX), Err(VaultError::MathError));
}

#[test]
fn volatile_withdrawal_is_converted_at_the_fresh_price() {
    let mut pool = new_pool();
    let mut holder = new_holder(alice());
    assert_eq!(
        handle_deposit(&sol_deposit(alice(), 0, PRICE_150_USD), &mut pool, &mut holder, 2_000_000_000),
        Ok(300_000_000)
    );
    let paid = handle_withdraw(
        &sol_withdrawal(alice(), 300_000_000, PRICE_160_USD),
        &mut pool,
        &mut holder,
        100_000_000,
    );
    // 100 USD at 160 USD per SOL: 0.625 SOL.
    assert_eq!(paid, Ok(625_000_000));
    assert_eq!(holder.lp_token_balance, 200_000_000);
    assert_eq!(pool.aum_usd, 200_000_000);
    assert_eq!(pool.sol_deposited, 1_375_000_000);
    assert_eq!(pool.sol_usd_price, PRICE_160_USD);
}

#[test]
fn volatile_withdrawal_books_the_amount_paid_not_its_usd_value() {
    let mut pool = new_pool();
    let mut first = new_holder(alice());
    let mut second = new_holder(bob());
    assert_eq!(
        handle_deposit(&usdc_deposit(alice(), 0), &mut pool, &mut first, 1_000_000),
        Ok(1_000_000)
    );
    assert_eq!(
        handle_deposit(
            &sol_deposit(bob(), 1_000_000, PRICE_700_USD),
            &mut pool,
            &mut second,
            1_000_000_000
        ),
        Ok(700_000_000)
    );
    assert_eq!(pool.aum_usd, 701_000_000);
    let paid = handle_withdraw(
        &sol_withdrawal(bob(), 701_000_000, PRICE_700_USD),
        &mut pool,
        &mut second,
        5,
    );
    // 5 USD units at 700 USD per SOL are 7.14 lamports.
    assert_eq!(paid, Ok(7));
    assert_eq!(pool.sol_deposited, 1_000_000_000 - 7);
    assert_eq!(pool.aum_usd, 701_000_000 - 5);
    // The seven lamports paid are worth four USD units: the pool keeps the difference,
    // which is no more than one native unit is worth, rounded up.
    assert_eq!(get_sol_usd_value(7, PRICE_700_USD), Ok(4));
}

#[test]
fn stale_observation_stops_a_volatile_withdrawal() {
    let mut pool = new_pool();
    let mut holder = new_holder(alice());
    assert_eq!(
        handle_deposit(&sol_deposit(alice(), 0, PRICE_150_USD), &mut pool, &mut holder, 2_000_000_000),
        Ok(300_000_000)
    );
    let pool_before = pool;
    let holder_before = holder;
    let ctx = Withdraw {
        user: alice(),
        vault_account: sol_vault(),
        lp_supply: 300_000_000,
        price_feed: Some(PriceObservation {
            price: PRICE_160_USD,
            confidence: 0,
            observation_time: NOW + 1_000 - 61,
        }),
        now: NOW + 1_000,
    };
    assert_eq!(handle_withdraw(&ctx, &mut pool, &mut holder, 1_000), Err(VaultError::StaleOracle));
    assert_eq!(pool, pool_before);
    assert_eq!(holder, holder_before);
}

#[test]
fn withdrawal_from_another_holders_ledger_is_unauthorized() {
    let mut pool = new_pool();
    let mut holder = new_holder(alice());
    assert_eq!(handle_deposit(&usdc_deposit(alice(), 0), &mut pool, &mut holder, 1_000), Ok(1_000));
    let pool_before = pool;
    let holder_before = holder;
    assert_eq!(
        handle_withdraw(&usdc_withdrawal(bob(), 1_000), &mut pool, &mut holder, 10),
        Err(VaultError::Unauthorized)
    );
    assert_eq!(pool, pool_before);
    assert_eq!(holder, holder_before);
}

#[test]
fn withdrawal_of_more_shares_than_outstanding_is_a_math_error() {
    let mut pool = new_pool();
    let mut holder = new_holder(alice());
    assert_eq!(handle_deposit(&usdc_deposit(alice(), 0), &mut pool, &mut holder, 1_000), Ok(1_000));
    let pool_before = pool;
    let holder_before = holder;
    assert_eq!(
        handle_withdraw(&usdc_withdrawal(alice(), 999), &mut pool, &mut holder, 1_000),
        Err(VaultError::MathError)
    );
    assert_eq!(pool, pool_before);
    assert_eq!(holder, holder_before);
}

#[test]
fn withdrawal_beyond_the_recorded_asset_is_a_math_error() {
    let mut pool = new_pool();
    let mut holder = new_holder(alice());
    assert_eq!(handle_deposit(&usdc_deposit(alice(), 0), &mut pool, &mut holder, 1_000), Ok(1_000));
    // The pool holds no SOL on record, so it cannot pay any out.
    let pool_before = pool;
    let holder_before = holder;
    assert_eq!(
        handle_withdraw(
            &sol_withdrawal(alice(), 1_000, PRICE_150_USD),
            &mut pool,
            &mut holder,
            1_000
        ),
        Err(VaultError::MathError)
    );
    assert_eq!(pool, pool_before);
    assert_eq!(holder, holder_before);
}

#[test]
fn withdrawal_of_nothing_pays_nothing() {
    let mut pool = new_pool();
    let mut holder = new_holder(alice());
    assert_eq!(handle_deposit(&usdc_deposit(alice(), 0), &mut pool, &mut holder, 1_000), Ok(1_000));
    let pool_before = pool;
    assert_eq!(
        handle_withdraw(&usdc_withdrawal(alice(), 1_000), &mut pool, &mut holder, 0),
        Ok(0)
    );
    assert_eq!(pool, pool_before);
    assert_eq!(holder.lp_token_balance, 1_000);
}

#[test]
fn withdrawal_accrues_rewards_on_the_shares_held_before_it() {
    let mut pool = new_pool();
    let start = StartRewards { admin: admin(), now: NOW - 1_000 };
    assert_eq!(handle_start_rewards(&start, &mut pool, 1_000_000_000, 10), Ok(()));
    let mut holder = new_holder(alice());
    assert_eq!(
        handle_deposit(&usdc_deposit(alice(), 0), &mut pool, &mut holder, 500_000),
        Ok(500_000)
    );
    let mut later = usdc_withdrawal(alice(), 500_000);
    later.now = NOW + 100;
    assert_eq!(handle_withdraw(&later, &mut pool, &mut holder, 500_000), Ok(500_000));
    assert_eq!(holder.pending_rewards, 500_000 * 10 * 100);
    assert_eq!(holder.last_claim_timestamp, NOW + 100);
    assert_eq!(holder.lp_token_balance, 0);
    assert_eq!(pool.aum_usd, 0);
}

#[test]
fn shares_held_always_add_up_to_the_shares_outstanding() {
    let mut pool = new_pool();
    let mut a = new_holder(alice());
    let mut b = new_holder(bob());
    let mut supply: u64 = 0;
    supply += handle_deposit(&usdc_deposit(alice(), supply), &mut pool, &mut a, 1_000_000).unwrap();
    assert_eq!(a.lp_token_balance + b.lp_token_balance, supply);
    supply += handle_deposit(
        &sol_deposit(bob(), supply, PRICE_150_USD),
        &mut pool,
        &mut b,
        3_333_333_333,
    )
    .unwrap();
    assert_eq!(a.lp_token_balance + b.lp_token_balance, supply);
    handle_withdraw(&usdc_withdrawal(alice(), supply), &mut pool, &mut a, 123_456).unwrap();
    supply -= 123_456;
    assert_eq!(a.lp_token_balance + b.lp_token_balance, supply);
    handle_withdraw(&sol_withdrawal(bob(), supply, PRICE_160_USD), &mut pool, &mut b, 77_777).unwrap();
    supply -= 77_777;
    assert_eq!(a.lp_token_balance + b.lp_token_balance, supply);
    // A rejected operation moves no shares.
    assert!(handle_withdraw(&usdc_withdrawal(alice(), supply), &mut pool, &mut a, u64::MAX).is_err());
    assert_eq!(a.lp_token_balance + b.lp_token_balance, supply);
    supply += handle_deposit(&usdc_deposit(bob(), supply), &mut pool, &mut b, 42).unwrap();
    assert_eq!(a.lp_token_balance + b.lp_token_balance, supply);
}

#[test]
fn assets_under_management_follow_the_priced_flows() {
    let mut pool = new_pool();
    let mut a = new_holder(alice());
    let mut b = new_holder(bob());
    let mut supply: u64 = 0;
    let mut flows: i128 = 0;
    let mut slack: i128 = 0;

    supply += handle_deposit(&usdc_deposit(alice(), supply), &mut pool, &mut a, 1_000_000).unwrap();
    flows += 1_000_000;
    assert_eq!(pool.aum_usd as i128, flows);

    supply += handle_deposit(
        &sol_deposit(bob(), supply, PRICE_700_USD),
        &mut pool,
        &mut b,
        1_000_000_007,
    )
    .unwrap();
    flows += get_sol_usd_value(1_000_000_007, PRICE_700_USD).unwrap() as i128;
    assert_eq!(pool.aum_usd as i128, flows);

    for shares in [5u64, 11, 13, 1_000, 99_999] {
        let paid = handle_withdraw(
            &sol_withdrawal(bob(), supply, PRICE_700_USD),
            &mut pool,
            &mut b,
            shares,
        )
        .unwrap();
        supply -= shares;
        flows -= get_sol_usd_value(paid, PRICE_700_USD).unwrap() as i128;
        // At 700 USD one lamport is worth 0.7 USD units: at most one unit is lost each time.
        slack += 1;
        assert!((pool.aum_usd as i128) <= flows);
        assert!((pool.aum_usd as i128) >= flows - slack);
    }

    let paid = handle_withdraw(&usdc_withdrawal(alice(), supply), &mut pool, &mut a, 500_000).unwrap();
    flows -= paid as i128;
    assert!((pool.aum_usd as i128) <= flows);
    assert!((pool.aum_usd as i128) >= flows - slack);
}
