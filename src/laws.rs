use vstd::arithmetic::div_mod::lemma_div_is_ordered;
use vstd::prelude::*;

use crate::engine::{clock_ok, stake_step, unstake_step};
use crate::error::MyErrors;
use crate::reward::{reward_of, REWARD_DIVISOR};
use crate::state::{LedgerCalls, PoolInfo, PrincipalMove, UserInfo};

verus! {

/// One user's call into the engine.
#[derive(Clone, Copy, Debug, PartialEq, Eq, Structural)]
pub enum Instruction {
    Stake { amount: u64, now: u64 },
    Unstake { now: u64 },
}

/// The slot at which an instruction runs.
pub open spec fn slot_of(ins: Instruction) -> u64 {
    match ins {
        Instruction::Stake { now, .. } => now,
        Instruction::Unstake { now } => now,
    }
}

/// The outcome of one instruction, as `stake` and `unstake` state it.
pub open spec fn step(pool: Option<PoolInfo>, user: UserInfo, ins: Instruction) -> Result<
    (UserInfo, LedgerCalls),
    MyErrors,
> {
    match ins {
        Instruction::Stake { amount, now } => stake_step(pool, user, amount, now),
        Instruction::Unstake { now } => unstake_step(pool, user, now),
    }
}

/// The reward minted by a set of ledger calls.
pub open spec fn minted(calls: LedgerCalls) -> int {
    match calls.mint {
        Some(m) => m as int,
        None => 0,
    }
}

/// The user's wallet balance and the pool's custody balance after the
/// ledger calls run.
pub open spec fn apply_calls(wallet: int, custody: int, calls: LedgerCalls) -> (int, int) {
    let w = wallet + minted(calls);
    match calls.principal {
        PrincipalMove::Deposit(a) => (w - a, custody + a),
        PrincipalMove::Withdraw(a) => (w + a, custody - a),
    }
}

/// Runs a sequence of instructions. One that fails, or whose slot lies
/// before the user's checkpoint (which the engine does not accept), changes
/// nothing, as its transaction is aborted. The result is the user's record, the wallet
/// and custody balances, and the total reward minted.
pub open spec fn run(
    pool: Option<PoolInfo>,
    user: UserInfo,
    wallet: int,
    custody: int,
    ins: Seq<Instruction>,
) -> (UserInfo, int, int, int)
    decreases ins.len(),
{
    if ins.len() == 0 {
        (user, wallet, custody, 0)
    } else {
        let (u1, w1, c1, m1) = if !clock_ok(user, slot_of(ins[0])) {
            (user, wallet, custody, 0)
        } else {
            match step(pool, user, ins[0]) {
                Ok((u, calls)) => {
                    let (w, c) = apply_calls(wallet, custody, calls);
                    (u, w, c, minted(calls))
                },
                Err(_) => (user, wallet, custody, 0),
            }
        };
        let (u2, w2, c2, m2) = run(pool, u1, w1, c1, ins.drop_first());
        (u2, w2, c2, m1 + m2)
    }
}

proof fn lemma_step_conserves(pool: Option<PoolInfo>, user: UserInfo, ins: Instruction, wallet: int, custody: int)
    ensures
        match step(pool, user, ins) {
            Ok((u, calls)) => {
                let (w, c) = apply_calls(wallet, custody, calls);
                &&& w + c == wallet + custody + minted(calls)
                &&& minted(calls) >= 0
                &&& c - custody == u.amount - user.amount
            },
            Err(_) => true,
        },
{
}

/// Conservation: over any sequence of stake and unstake instructions by one
/// user, the user's wallet plus the pool's custody changes only by the
/// reward minted, which never decreases it, and custody changes exactly by
/// the change in the user's staked principal.
pub proof fn lemma_conservation(
    pool: Option<PoolInfo>,
    user: UserInfo,
    wallet: int,
    custody: int,
    ins: Seq<Instruction>,
)
    ensures
        ({
            let (u, w, c, m) = run(pool, user, wallet, custody, ins);
            &&& w + c == wallet + custody + m
            &&& m >= 0
            &&& c - custody == u.amount - user.amount
        }),
    decreases ins.len(),
{
    if ins.len() > 0 {
        lemma_step_conserves(pool, user, ins[0], wallet, custody);
        if !clock_ok(user, slot_of(ins[0])) {
            lemma_conservation(pool, user, wallet, custody, ins.drop_first());
        } else {
            match step(pool, user, ins[0]) {
                Ok((u, calls)) => {
                    let (w, c) = apply_calls(wallet, custody, calls);
                    lemma_conservation(pool, u, w, c, ins.drop_first());
                },
                Err(_) => {
                    lemma_conservation(pool, user, wallet, custody, ins.drop_first());
                },
            }
        }
    }
}

/// Settlement goes by elapsed time, not by the number of calls: a second
/// stake at the same slot as a successful first one mints a reward of zero
/// and owes nothing afterwards.
pub proof fn lemma_stake_twice_same_slot(
    pool: Option<PoolInfo>,
    user: UserInfo,
    first: u64,
    second: u64,
    now: u64,
)
    requires
        stake_step(pool, user, first, now) is Ok,
        stake_step(pool, stake_step(pool, user, first, now)->Ok_0.0, second, now) is Ok,
    ensures
        ({
            let u1 = stake_step(pool, user, first, now)->Ok_0.0;
            let (u2, calls) = stake_step(pool, u1, second, now)->Ok_0;
            &&& calls.mint == Some(0u64)
            &&& u2.reward_debt == 0
            &&& u2.start_time == now
            &&& u2.amount == user.amount + first + second
        }),
{
    let u1 = stake_step(pool, user, first, now)->Ok_0.0;
    assert(reward_of(u1.amount as int, 0, pool->Some_0.reward_rate as int) == 0) by (nonlinear_arith);
}

/// Rewards are never negative and do not decrease when the amount, the
/// elapsed time or the rate grows, each alone or together.
pub proof fn lemma_reward_monotonic(a1: int, a2: int, e1: int, e2: int, r1: int, r2: int)
    requires
        0 <= a1 <= a2,
        0 <= e1 <= e2,
        0 <= r1 <= r2,
    ensures
        0 <= reward_of(a1, e1, r1) <= reward_of(a2, e2, r2),
{
    assert(0 <= a1 * e1 <= a2 * e2) by (nonlinear_arith)
        requires
            0 <= a1 <= a2,
            0 <= e1 <= e2,
    ;
    assert(0 <= a1 * e1 * r1 <= a2 * e2 * r2) by (nonlinear_arith)
        requires
            0 <= a1 * e1 <= a2 * e2,
            0 <= r1 <= r2,
    ;
    lemma_div_is_ordered(0, a1 * e1 * r1, REWARD_DIVISOR as int);
    lemma_div_is_ordered(a1 * e1 * r1, a2 * e2 * r2, REWARD_DIVISOR as int);
}

} // verus!
