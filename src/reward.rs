use vstd::prelude::*;

use crate::error::MyErrors;

verus! {

/// The reward rate is expressed per 365 time units, in hundredths.
pub const REWARD_DIVISOR: u128 = 36500;

/// The reward accrued by `amount` staked tokens over `elapsed` slots at
/// `rate`: `floor(amount * elapsed * rate / 36500)`.
pub open spec fn reward_of(amount: int, elapsed: int, rate: int) -> int {
    (amount * elapsed * rate) / (REWARD_DIVISOR as int)
}

/// What `compute_reward` returns: the reward, or `ArithmeticOverflow` when it
/// does not fit in a `u64`.
pub open spec fn reward_result(amount: int, elapsed: int, rate: int) -> Result<u64, MyErrors> {
    if reward_of(amount, elapsed, rate) <= u64::MAX {
        Ok(reward_of(amount, elapsed, rate) as u64)
    } else {
        Err(MyErrors::ArithmeticOverflow)
    }
}

/// Computes `reward_of(amount, elapsed, rate)`, in 128-bit arithmetic so that
/// no intermediate product wraps. Fails with `ArithmeticOverflow` exactly
/// when the reward does not fit in a `u64`.
pub fn compute_reward(amount: u64, elapsed: u64, rate: u64) -> (r: Result<u64, MyErrors>)
    ensures
        r == reward_result(amount as int, elapsed as int, rate as int),
{
    let a = amount as u128;
    let e = elapsed as u128;
    proof {
        assert(a * e <= u64::MAX * u64::MAX) by (nonlinear_arith)
            requires
                a <= u64::MAX,
                e <= u64::MAX,
        ;
    }
    let ae: u128 = a * e;
    match ae.checked_mul(rate as u128) {
        Some(p) => {
            let q: u128 = p / REWARD_DIVISOR;
            if q > u64::MAX as u128 {
                Err(MyErrors::ArithmeticOverflow)
            } else {
                Ok(q as u64)
            }
        },
        None => {
            proof {
                let big = ae as int * rate as int;
                assert(big / 36500 > u64::MAX) by (nonlinear_arith)
                    requires
                        big > u128::MAX,
                ;
            }
            Err(MyErrors::ArithmeticOverflow)
        },
    }
}

} // verus!
