use vstd::prelude::*;

verus! {

/// The ways a staking operation can fail. Every failure leaves all state
/// untouched.
#[derive(Clone, Copy, Debug, PartialEq, Eq, Structural)]
pub enum MyErrors {
    /// A stake of zero tokens, or an unstake with no active position.
    AmountMustBeGreaterThanZero,
    /// The pool record does not exist.
    PoolNotFound,
    /// The pool record exists already and cannot be created again.
    AlreadyInitialized,
    /// A reward, or a sum of rewards or principal, does not fit in a `u64`.
    ArithmeticOverflow,
}

} // verus!
