use token_swap::error::TokenSwapError;
use token_swap::pool::{addLiquidity, removeLiquidity, Pool, Wallet};
use token_swap::position::{initialize_user_liquidity_account, LiquidityAccount, LOCK_DURATION};
use token_swap::vault::{initialize_vault_token_a, initialize_vault_token_b, Asset, Vault};

fn empty_pool() -> Pool {
    Pool::new(initialize_vault_token_a(), initialize_vault_token_b())
}

fn same_position(x: &LiquidityAccount, y: &LiquidityAccount) -> bool {
    x.owner == y.owner
        && x.staked_token_amount == y.staked_token_amount
        && x.last_update_time == y.last_update_time
}

#[test]
fn new_position_is_empty() {
    let p = initialize_user_liquidity_account([9u8; 32]);
    assert_eq!(p.owner, [9u8; 32]);
    assert_eq!(p.staked_token_amount, 0);
    assert_eq!(p.last_update_time, 0);
}

#[test]
fn lock_duration_is_one_hundred_units() {
    assert_eq!(LOCK_DURATION, 100);
}

#[test]
fn deposit_scenario() {
    let mut pool = empty_pool();
    let mut position = initialize_user_liquidity_account([1u8; 32]);
    let mut user = Wallet { token_a: 800, token_b: 600 };
    assert_eq!(addLiquidity(&mut pool, &mut position, &mut user, 500, 42), Ok(500));
    assert_eq!(position.staked_token_amount, 500);
    assert_eq!(position.last_update_time, 42);
    assert_eq!(position.owner, [1u8; 32]);
    assert_eq!(pool.reserve_a(), 500);
    assert_eq!(pool.reserve_b(), 500);
    assert_eq!(user, Wallet { token_a: 300, token_b: 100 });
}

#[test]
fn deposit_ignores_reserve_ratio() {
    let mut pool = Pool::from_reserves(1000, 10);
    let mut position = initialize_user_liquidity_account([1u8; 32]);
    let mut user = Wallet { token_a: 50, token_b: 50 };
    assert_eq!(addLiquidity(&mut pool, &mut position, &mut user, 50, 0), Ok(50));
    assert_eq!(pool.reserve_a(), 1050);
    assert_eq!(pool.reserve_b(), 60);
}

#[test]
fn deposit_without_funds_changes_nothing() {
    let mut pool = empty_pool();
    let mut position = initialize_user_liquidity_account([1u8; 32]);
    let before = position;
    let mut user = Wallet { token_a: 800, token_b: 499 };
    assert_eq!(
        addLiquidity(&mut pool, &mut position, &mut user, 500, 42),
        Err(TokenSwapError::TransferFailed)
    );
    assert!(same_position(&position, &before));
    assert_eq!(pool.reserve_a(), 0);
    assert_eq!(pool.reserve_b(), 0);
    assert_eq!(user, Wallet { token_a: 800, token_b: 499 });
}

#[test]
fn deposit_overflowing_stake_fails_calculation() {
    let mut pool = empty_pool();
    let mut position = LiquidityAccount {
        owner: [1u8; 32],
        staked_token_amount: u64::MAX - 5,
        last_update_time: 3,
    };
    let before = position;
    let mut user = Wallet { token_a: 10, token_b: 10 };
    assert_eq!(
        addLiquidity(&mut pool, &mut position, &mut user, 6, 42),
        Err(TokenSwapError::CalculationError)
    );
    assert!(same_position(&position, &before));
    assert_eq!(pool.reserve_a(), 0);
    assert_eq!(user, Wallet { token_a: 10, token_b: 10 });
}

#[test]
fn remove_before_lock_expiry_fails() {
    let t: i64 = 1_000;
    let mut pool = Pool::from_reserves(500, 500);
    let mut position = LiquidityAccount {
        owner: [2u8; 32],
        staked_token_amount: 500,
        last_update_time: t,
    };
    let before = position;
    let mut user = Wallet { token_a: 0, token_b: 0 };
    assert_eq!(
        removeLiquidity(&mut pool, &mut position, &mut user, 100, t + 50),
        Err(TokenSwapError::TimeConstraint)
    );
    assert!(same_position(&position, &before));
    assert_eq!(pool.reserve_a(), 500);
    assert_eq!(pool.reserve_b(), 500);
    assert_eq!(user, Wallet { token_a: 0, token_b: 0 });
}

#[test]
fn remove_exactly_at_lock_expiry_succeeds() {
    let t: i64 = 1_000;
    let mut pool = Pool::from_reserves(500, 500);
    let mut position = LiquidityAccount {
        owner: [2u8; 32],
        staked_token_amount: 500,
        last_update_time: t,
    };
    let mut user = Wallet { token_a: 0, token_b: 0 };
    assert_eq!(removeLiquidity(&mut pool, &mut position, &mut user, 100, t + 100), Ok(()));
    assert_eq!(position.staked_token_amount, 400);
    assert_eq!(position.last_update_time, t);
    assert_eq!(user, Wallet { token_a: 100, token_b: 100 });
}

#[test]
fn remove_more_than_staked_fails() {
    let mut pool = Pool::from_reserves(5_000, 5_000);
    let mut position = LiquidityAccount {
        owner: [3u8; 32],
        staked_token_amount: 500,
        last_update_time: 0,
    };
    let before = position;
    let mut user = Wallet { token_a: 0, token_b: 0 };
    assert_eq!(
        removeLiquidity(&mut pool, &mut position, &mut user, 600, 1_000),
        Err(TokenSwapError::InsufficientLiquidityTokens)
    );
    assert!(same_position(&position, &before));
    assert_eq!(pool.reserve_a(), 5_000);
    assert_eq!(pool.reserve_b(), 5_000);
    assert_eq!(user, Wallet { token_a: 0, token_b: 0 });
}

#[test]
fn remove_from_drained_vault_fails_transfer() {
    let mut pool = Pool::from_reserves(5_000, 20);
    let mut position = LiquidityAccount {
        owner: [3u8; 32],
        staked_token_amount: 500,
        last_update_time: 0,
    };
    let before = position;
    let mut user = Wallet { token_a: 0, token_b: 0 };
    assert_eq!(
        removeLiquidity(&mut pool, &mut position, &mut user, 100, 1_000),
        Err(TokenSwapError::TransferFailed)
    );
    assert!(same_position(&position, &before));
    assert_eq!(pool.reserve_a(), 5_000);
    assert_eq!(pool.reserve_b(), 20);
}

#[test]
fn remove_with_extreme_timestamps_does_not_overflow() {
    let mut pool = Pool::from_reserves(10, 10);
    let mut position = LiquidityAccount {
        owner: [3u8; 32],
        staked_token_amount: 10,
        last_update_time: i64::MIN,
    };
    let mut user = Wallet { token_a: 0, token_b: 0 };
    assert_eq!(removeLiquidity(&mut pool, &mut position, &mut user, 10, i64::MAX), Ok(()));
    let mut late = LiquidityAccount {
        owner: [3u8; 32],
        staked_token_amount: 10,
        last_update_time: i64::MAX,
    };
    assert_eq!(
        removeLiquidity(&mut pool, &mut late, &mut user, 0, i64::MIN),
        Err(TokenSwapError::TimeConstraint)
    );
}

#[test]
fn add_then_remove_restores_books() {
    let mut pool = Pool::from_reserves(1_000, 2_000);
    let mut position = LiquidityAccount {
        owner: [4u8; 32],
        staked_token_amount: 70,
        last_update_time: 5,
    };
    let mut user = Wallet { token_a: 300, token_b: 400 };
    assert_eq!(addLiquidity(&mut pool, &mut position, &mut user, 250, 10), Ok(250));
    assert_eq!(position.staked_token_amount, 320);
    assert_eq!(removeLiquidity(&mut pool, &mut position, &mut user, 250, 110), Ok(()));
    assert_eq!(position.staked_token_amount, 70);
    assert_eq!(pool.reserve_a(), 1_000);
    assert_eq!(pool.reserve_b(), 2_000);
    assert_eq!(user, Wallet { token_a: 300, token_b: 400 });
}

#[test]
fn new_deposit_relocks_whole_position() {
    let mut pool = empty_pool();
    let mut position = initialize_user_liquidity_account([5u8; 32]);
    let mut user = Wallet { token_a: 1_000, token_b: 1_000 };
    assert_eq!(addLiquidity(&mut pool, &mut position, &mut user, 400, 0), Ok(400));
    // The first deposit has cleared its lock by 150, but a second deposit
    // then relocks everything.
    assert_eq!(addLiquidity(&mut pool, &mut position, &mut user, 1, 150), Ok(1));
    assert_eq!(
        removeLiquidity(&mut pool, &mut position, &mut user, 400, 200),
        Err(TokenSwapError::TimeConstraint)
    );
    assert_eq!(removeLiquidity(&mut pool, &mut position, &mut user, 400, 250), Ok(()));
    assert_eq!(position.staked_token_amount, 1);
}

#[test]
fn zero_deposit_relocks_and_moves_nothing() {
    let mut pool = Pool::from_reserves(10, 10);
    let mut position = LiquidityAccount {
        owner: [6u8; 32],
        staked_token_amount: 10,
        last_update_time: 0,
    };
    let mut user = Wallet { token_a: 0, token_b: 0 };
    assert_eq!(addLiquidity(&mut pool, &mut position, &mut user, 0, 500), Ok(0));
    assert_eq!(position.staked_token_amount, 10);
    assert_eq!(position.last_update_time, 500);
    assert_eq!(pool.reserve_a(), 10);
    assert_eq!(
        removeLiquidity(&mut pool, &mut position, &mut user, 10, 550),
        Err(TokenSwapError::TimeConstraint)
    );
}

#[test]
fn vault_deposit_and_withdraw_conserve_tokens() {
    let mut vault = Vault::with_balance(Asset::B, 100);
    let mut depositor: u64 = 40;
    assert_eq!(vault.deposit(&mut depositor, 30), Ok(()));
    assert_eq!(vault.balance(), 130);
    assert_eq!(depositor, 10);
    assert_eq!(vault.deposit(&mut depositor, 11), Err(TokenSwapError::TransferFailed));
    assert_eq!(vault.balance(), 130);
    assert_eq!(depositor, 10);
    assert_eq!(vault.asset(), Asset::B);
    assert!(vault.can_withdraw(0, 130));
    assert!(!vault.can_withdraw(0, 131));
    assert!(!vault.can_withdraw(u64::MAX, 1));
}
