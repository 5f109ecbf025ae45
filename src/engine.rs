use vstd::prelude::*;

use crate::error::MyErrors;
use crate::reward::{compute_reward, reward_result};
use crate::state::{LedgerCalls, PoolInfo, PrincipalMove, UserInfo};

verus! {

/// Whether the clock has not gone back past the user's last checkpoint.
/// A user without an active stake has no checkpoint to go back past.
pub open spec fn clock_ok(user: UserInfo, now: u64) -> bool {
    user.amount > 0 ==> user.start_time <= now
}

/// The record created by `initialize`.
pub open spec fn new_pool(
    admin: [u8; 32],
    token: [u8; 32],
    lockup_period: u64,
    reward_rate: u64,
) -> PoolInfo {
    PoolInfo { admin, reward_rate, lockup_period, token }
}

/// Settling a position at slot `now`: the reward since the last checkpoint
/// is added to what is owed, and the checkpoint moves to `now`.
pub open spec fn settle(user: UserInfo, pool: PoolInfo, now: u64) -> Result<UserInfo, MyErrors> {
    if user.amount == 0 {
        Err(MyErrors::AmountMustBeGreaterThanZero)
    } else {
        match reward_result(user.amount as int, now - user.start_time, pool.reward_rate as int) {
            Err(e) => Err(e),
            Ok(reward) => if user.reward_debt + reward > u64::MAX {
                Err(MyErrors::ArithmeticOverflow)
            } else {
                Ok(UserInfo { reward_debt: (user.reward_debt + reward) as u64, start_time: now, ..user })
            },
        }
    }
}

/// The outcome of staking `amount` at slot `now`: the new record and the
/// ledger calls, or the error.
pub open spec fn stake_step(pool: Option<PoolInfo>, user: UserInfo, amount: u64, now: u64) -> Result<
    (UserInfo, LedgerCalls),
    MyErrors,
> {
    match pool {
        None => Err(MyErrors::PoolNotFound),
        Some(p) => if amount == 0 {
            Err(MyErrors::AmountMustBeGreaterThanZero)
        } else if user.amount + amount > u64::MAX {
            Err(MyErrors::ArithmeticOverflow)
        } else {
            let staked = UserInfo {
                amount: (user.amount + amount) as u64,
                reward_debt: 0,
                start_time: now,
            };
            if user.amount == 0 {
                Ok((staked, LedgerCalls { mint: None, principal: PrincipalMove::Deposit(amount) }))
            } else {
                match settle(user, p, now) {
                    Err(e) => Err(e),
                    Ok(s) => Ok(
                        (
                            staked,
                            LedgerCalls {
                                mint: Some(s.reward_debt),
                                principal: PrincipalMove::Deposit(amount),
                            },
                        ),
                    ),
                }
            }
        },
    }
}

/// The outcome of unstaking the whole position at slot `now`.
pub open spec fn unstake_step(pool: Option<PoolInfo>, user: UserInfo, now: u64) -> Result<
    (UserInfo, LedgerCalls),
    MyErrors,
> {
    match pool {
        None => Err(MyErrors::PoolNotFound),
        Some(p) => match settle(user, p, now) {
            Err(e) => Err(e),
            Ok(s) => Ok(
                (
                    UserInfo::empty(),
                    LedgerCalls {
                        mint: Some(s.reward_debt),
                        principal: PrincipalMove::Withdraw(user.amount),
                    },
                ),
            ),
        },
    }
}

/// Creates the pool record. Fails with `AlreadyInitialized`, changing
/// nothing, if the record exists already.
pub fn initialize(
    pool: &mut Option<PoolInfo>,
    admin: [u8; 32],
    token: [u8; 32],
    lockup_period: u64,
    reward_rate: u64,
) -> (r: Result<(), MyErrors>)
    ensures
        old(pool).is_some() ==> r == Err::<(), MyErrors>(MyErrors::AlreadyInitialized)
            && *final(pool) == *old(pool),
        old(pool).is_none() ==> r == Ok::<(), MyErrors>(())
            && *final(pool) == Some(new_pool(admin, token, lockup_period, reward_rate)),
{
    if pool.is_some() {
        return Err(MyErrors::AlreadyInitialized);
    }
    *pool = Some(PoolInfo { admin, reward_rate, lockup_period, token });
    Ok(())
}

/// The reward accrued by the user's position from its last checkpoint up
/// to slot `now`.
pub fn calculate_reward(user: &UserInfo, pool: &PoolInfo, now: u64) -> (r: Result<u64, MyErrors>)
    requires
        user.start_time <= now,
    ensures
        r == reward_result(user.amount as int, now - user.start_time, pool.reward_rate as int),
{
    compute_reward(user.amount, now - user.start_time, pool.reward_rate)
}

/// Settles the user's position at slot `now` (see `settle`). On failure
/// the record is unchanged.
pub fn update_reward(user: &mut UserInfo, pool: &PoolInfo, now: u64) -> (r: Result<(), MyErrors>)
    requires
        clock_ok(*old(user), now),
    ensures
        match settle(*old(user), *pool, now) {
            Ok(s) => r == Ok::<(), MyErrors>(()) && *final(user) == s,
            Err(e) => r == Err::<(), MyErrors>(e) && *final(user) == *old(user),
        },
{
    if user.amount == 0 {
        return Err(MyErrors::AmountMustBeGreaterThanZero);
    }
    let reward = match calculate_reward(user, pool, now) {
        Ok(x) => x,
        Err(e) => return Err(e),
    };
    let debt = match user.reward_debt.checked_add(reward) {
        Some(x) => x,
        None => return Err(MyErrors::ArithmeticOverflow),
    };
    user.reward_debt = debt;
    user.start_time = now;
    Ok(())
}

/// Stakes `amount` more tokens at slot `now`. An active position is settled
/// first and its whole owed reward is handed out as a mint; then the
/// principal is deposited and a fresh accrual window opens at `now` with
/// nothing owed. On failure the record is unchanged.
pub fn stake(pool: &Option<PoolInfo>, user: &mut UserInfo, amount: u64, now: u64) -> (r: Result<
    LedgerCalls,
    MyErrors,
>)
    requires
        clock_ok(*old(user), now),
    ensures
        match stake_step(*pool, *old(user), amount, now) {
            Ok((u, calls)) => r == Ok::<LedgerCalls, MyErrors>(calls) && *final(user) == u,
            Err(e) => r == Err::<LedgerCalls, MyErrors>(e) && *final(user) == *old(user),
        },
        pool.is_some() && amount == 0 ==> r == Err::<LedgerCalls, MyErrors>(
            MyErrors::AmountMustBeGreaterThanZero,
        ) && *final(user) == *old(user),
        r.is_ok() ==> final(user).amount == old(user).amount + amount && final(user).reward_debt == 0
            && final(user).start_time == now,
{
    let p = match pool {
        Some(p) => p,
        None => return Err(MyErrors::PoolNotFound),
    };
    if amount == 0 {
        return Err(MyErrors::AmountMustBeGreaterThanZero);
    }
    let total = match user.amount.checked_add(amount) {
        Some(x) => x,
        None => return Err(MyErrors::ArithmeticOverflow),
    };
    let mut mint: Option<u64> = None;
    if user.amount > 0 {
        let mut settled = *user;
        match update_reward(&mut settled, p, now) {
            Ok(()) => {},
            Err(e) => return Err(e),
        }
        mint = Some(settled.reward_debt);
    }
    user.amount = total;
    user.start_time = now;
    user.reward_debt = 0;
    Ok(LedgerCalls { mint, principal: PrincipalMove::Deposit(amount) })
}

/// Unstakes the whole position at slot `now`: the position is settled, the
/// whole owed reward is minted to the user, all principal is withdrawn, and
/// the record is emptied. On failure the record is unchanged.
pub fn unstake(pool: &Option<PoolInfo>, user: &mut UserInfo, now: u64) -> (r: Result<
    LedgerCalls,
    MyErrors,
>)
    requires
        clock_ok(*old(user), now),
    ensures
        match unstake_step(*pool, *old(user), now) {
            Ok((u, calls)) => r == Ok::<LedgerCalls, MyErrors>(calls) && *final(user) == u,
            Err(e) => r == Err::<LedgerCalls, MyErrors>(e) && *final(user) == *old(user),
        },
        pool.is_some() && old(user).amount == 0 ==> r == Err::<LedgerCalls, MyErrors>(
            MyErrors::AmountMustBeGreaterThanZero,
        ) && *final(user) == *old(user),
        r.is_ok() ==> *final(user) == UserInfo::empty(),
{
    let p = match pool {
        Some(p) => p,
        None => return Err(MyErrors::PoolNotFound),
    };
    let mut settled = *user;
    match update_reward(&mut settled, p, now) {
        Ok(()) => {},
        Err(e) => return Err(e),
    }
    let calls = LedgerCalls {
        mint: Some(settled.reward_debt),
        principal: PrincipalMove::Withdraw(user.amount),
    };
    *user = UserInfo::new();
    Ok(calls)
}

} // verus!
