use vstd::prelude::*;

verus! {

/// A 32-byte account identity (a public key).
pub type AccountKey = [u8; 32];

/// One record per pool, written once when the pool is created.
#[derive(Clone, Copy, Debug)]
pub struct PoolInfo {
    /// The account that signs reward mints and principal withdrawals.
    pub admin: AccountKey,
    /// Reward units per staked unit per slot, scaled by `REWARD_DIVISOR`.
    pub reward_rate: u64,
    /// The minimum stake duration. Stored, but not enforced on unstake.
    pub lockup_period: u64,
    /// The token that the pool accepts.
    pub token: AccountKey,
}

impl PoolInfo {
    /// The size of the stored record in bytes.
    pub const LEN: usize = 80;
}

/// One record per user per pool.
#[derive(Clone, Copy, Debug, PartialEq, Eq, Structural)]
pub struct UserInfo {
    /// The principal currently staked.
    pub amount: u64,
    /// Reward accrued and not yet paid out.
    pub reward_debt: u64,
    /// The slot of the last accrual checkpoint; 0 when no stake is active.
    pub start_time: u64,
}

impl UserInfo {
    /// The size of the stored record in bytes.
    pub const LEN: usize = 24;

    /// The record of a user with no position.
    pub open spec fn empty() -> UserInfo {
        UserInfo { amount: 0, reward_debt: 0, start_time: 0 }
    }

    /// A fresh record: nothing staked, nothing owed.
    pub fn new() -> (r: UserInfo)
        ensures
            r == UserInfo::empty(),
    {
        UserInfo { amount: 0, reward_debt: 0, start_time: 0 }
    }
}

/// How principal moves between the user's wallet and the pool's custody.
#[derive(Clone, Copy, Debug, PartialEq, Eq, Structural)]
pub enum PrincipalMove {
    /// From the user's wallet into custody, signed by the user.
    Deposit(u64),
    /// From custody back to the user's wallet, signed by the admin.
    Withdraw(u64),
}

/// The token-ledger calls that an operation requires, in order: first the
/// reward mint to the user (if any), then the principal transfer. They must
/// run in the same atomic transaction as the state change.
#[derive(Clone, Copy, Debug, PartialEq, Eq, Structural)]
pub struct LedgerCalls {
    /// Reward units to mint to the user's wallet, signed by the admin.
    pub mint: Option<u64>,
    /// The principal transfer.
    pub principal: PrincipalMove,
}

} // verus!
