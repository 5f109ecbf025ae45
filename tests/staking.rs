use staking_program::{
    compute_reward, initialize, stake, unstake, LedgerCalls, MyErrors, PoolInfo, PrincipalMove,
    UserInfo,
};

fn pool_with_rate(rate: u64) -> Option<PoolInfo> {
    let mut pool = None;
    initialize(&mut pool, [1u8; 32], [2u8; 32], 0, rate).unwrap();
    pool
}

fn zeroed() -> UserInfo {
    UserInfo { amount: 0, reward_debt: 0, start_time: 0 }
}

#[test]
fn reward_formula_exact_values() {
    assert_eq!(compute_reward(1000, 3650, 10), Ok(1000));
    assert_eq!(compute_reward(500, 100, 10), Ok(13));
    assert_eq!(compute_reward(36500, 1, 1), Ok(1));
    assert_eq!(compute_reward(36499, 1, 1), Ok(0));
    assert_eq!(compute_reward(0, 1000, 10), Ok(0));
    assert_eq!(compute_reward(1000, 0, 10), Ok(0));
    assert_eq!(compute_reward(1000, 1000, 0), Ok(0));
}

#[test]
fn reward_wide_intermediate_does_not_wrap() {
    // The product exceeds u64 but the quotient fits.
    let r = compute_reward(u64::MAX, 36500, 1);
    assert_eq!(r, Ok(u64::MAX));
}

#[test]
fn reward_overflow_is_an_error() {
    assert_eq!(compute_reward(u64::MAX, u64::MAX, u64::MAX), Err(MyErrors::ArithmeticOverflow));
    assert_eq!(compute_reward(u64::MAX, 36501, 1), Err(MyErrors::ArithmeticOverflow));
}

#[test]
fn reward_monotonic_in_each_argument() {
    let base = compute_reward(700, 900, 15).unwrap();
    assert!(compute_reward(701, 900, 15).unwrap() >= base);
    assert!(compute_reward(700, 950, 15).unwrap() >= base);
    assert!(compute_reward(700, 900, 16).unwrap() >= base);
    assert!(compute_reward(699, 900, 15).unwrap() <= base);
}

#[test]
fn initialize_sets_fields_and_rejects_second_call() {
    let mut pool = None;
    assert_eq!(initialize(&mut pool, [1u8; 32], [2u8; 32], 77, 10), Ok(()));
    let p = pool.unwrap();
    assert_eq!(p.admin, [1u8; 32]);
    assert_eq!(p.token, [2u8; 32]);
    assert_eq!(p.lockup_period, 77);
    assert_eq!(p.reward_rate, 10);
    assert_eq!(initialize(&mut pool, [3u8; 32], [4u8; 32], 1, 1), Err(MyErrors::AlreadyInitialized));
    let q = pool.unwrap();
    assert_eq!(q.admin, [1u8; 32]);
    assert_eq!(q.reward_rate, 10);
}

#[test]
fn stake_then_unstake_after_full_period() {
    let pool = pool_with_rate(10);
    let mut user = UserInfo::new();
    let first = stake(&pool, &mut user, 1000, 0).unwrap();
    assert_eq!(first, LedgerCalls { mint: None, principal: PrincipalMove::Deposit(1000) });
    let last = unstake(&pool, &mut user, 3650).unwrap();
    assert_eq!(last, LedgerCalls { mint: Some(1000), principal: PrincipalMove::Withdraw(1000) });
    assert_eq!(user, zeroed());
}

#[test]
fn second_stake_settles_prior_window() {
    let pool = pool_with_rate(10);
    let mut user = UserInfo::new();
    stake(&pool, &mut user, 500, 0).unwrap();
    let calls = stake(&pool, &mut user, 500, 100).unwrap();
    assert_eq!(calls, LedgerCalls { mint: Some(13), principal: PrincipalMove::Deposit(500) });
    assert_eq!(user, UserInfo { amount: 1000, reward_debt: 0, start_time: 100 });
}

#[test]
fn stake_twice_in_same_slot_mints_nothing() {
    let pool = pool_with_rate(10);
    let mut user = UserInfo::new();
    stake(&pool, &mut user, 5000, 42).unwrap();
    let calls = stake(&pool, &mut user, 7000, 42).unwrap();
    assert_eq!(calls.mint, Some(0));
    assert_eq!(user, UserInfo { amount: 12000, reward_debt: 0, start_time: 42 });
}

#[test]
fn zero_stake_is_rejected_without_change() {
    let pool = pool_with_rate(10);
    let mut user = UserInfo { amount: 300, reward_debt: 0, start_time: 5 };
    assert_eq!(stake(&pool, &mut user, 0, 50), Err(MyErrors::AmountMustBeGreaterThanZero));
    assert_eq!(user, UserInfo { amount: 300, reward_debt: 0, start_time: 5 });
}

#[test]
fn unstake_without_position_is_rejected_without_change() {
    let pool = pool_with_rate(10);
    let mut user = UserInfo::new();
    assert_eq!(unstake(&pool, &mut user, 50), Err(MyErrors::AmountMustBeGreaterThanZero));
    assert_eq!(user, zeroed());
}

#[test]
fn missing_pool_is_reported() {
    let mut user = UserInfo::new();
    assert_eq!(stake(&None, &mut user, 10, 0), Err(MyErrors::PoolNotFound));
    assert_eq!(unstake(&None, &mut user, 0), Err(MyErrors::PoolNotFound));
    assert_eq!(user, zeroed());
}

#[test]
fn principal_overflow_is_rejected_without_change() {
    let pool = pool_with_rate(10);
    let mut user = UserInfo { amount: u64::MAX - 1, reward_debt: 0, start_time: 0 };
    assert_eq!(stake(&pool, &mut user, 2, 0), Err(MyErrors::ArithmeticOverflow));
    assert_eq!(user, UserInfo { amount: u64::MAX - 1, reward_debt: 0, start_time: 0 });
}

#[test]
fn reward_overflow_on_unstake_is_rejected_without_change() {
    let pool = pool_with_rate(u64::MAX);
    let before = UserInfo { amount: u64::MAX, reward_debt: 0, start_time: 0 };
    let mut user = before;
    assert_eq!(unstake(&pool, &mut user, u64::MAX), Err(MyErrors::ArithmeticOverflow));
    assert_eq!(user, before);
}

#[test]
fn owed_reward_overflow_is_rejected() {
    let pool = pool_with_rate(36500);
    let before = UserInfo { amount: 2, reward_debt: u64::MAX - 1, start_time: 0 };
    let mut user = before;
    assert_eq!(unstake(&pool, &mut user, 1), Err(MyErrors::ArithmeticOverflow));
    assert_eq!(user, before);
}

#[test]
fn owed_reward_is_paid_on_unstake() {
    let pool = pool_with_rate(36500);
    let mut user = UserInfo { amount: 3, reward_debt: 4, start_time: 10 };
    let calls = unstake(&pool, &mut user, 12).unwrap();
    assert_eq!(calls, LedgerCalls { mint: Some(10), principal: PrincipalMove::Withdraw(3) });
    assert_eq!(user, zeroed());
}

#[test]
fn balances_conserved_except_minted_reward() {
    let pool = pool_with_rate(10);
    let mut user = UserInfo::new();
    let mut wallet: i128 = 10_000;
    let mut custody: i128 = 0;
    let mut minted: i128 = 0;
    let mut apply = |calls: LedgerCalls, wallet: &mut i128, custody: &mut i128| {
        if let Some(m) = calls.mint {
            *wallet += m as i128;
            minted += m as i128;
        }
        match calls.principal {
            PrincipalMove::Deposit(a) => {
                *wallet -= a as i128;
                *custody += a as i128;
            }
            PrincipalMove::Withdraw(a) => {
                *wallet += a as i128;
                *custody -= a as i128;
            }
        }
    };
    apply(stake(&pool, &mut user, 2000, 0).unwrap(), &mut wallet, &mut custody);
    apply(stake(&pool, &mut user, 3000, 1000).unwrap(), &mut wallet, &mut custody);
    assert_eq!(custody, user.amount as i128);
    apply(unstake(&pool, &mut user, 5000).unwrap(), &mut wallet, &mut custody);
    assert_eq!(custody, 0);
    // 2000 * 1000 * 10 / 36500 = 547; 5000 * 4000 * 10 / 36500 = 5479.
    assert_eq!(wallet, 10_000 + 547 + 5479);
    assert_eq!(wallet + custody, 10_000 + 547 + 5479);
    assert_eq!(minted, 547 + 5479);
    assert_eq!(user, zeroed());
}
