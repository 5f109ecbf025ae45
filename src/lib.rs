//! A token-staking ledger: users deposit a token into a pool and accrue a
//! time-proportional reward, paid out whenever their position is settled.
//!
//! The state machine here is pure: every operation takes the current clock
//! slot as a plain value and returns the token-ledger calls (a reward mint
//! and a principal transfer) that the host must perform in the same atomic
//! transaction as the state change.
mod engine;
mod error;
mod laws;
mod reward;
mod state;

pub use engine::{
    calculate_reward, clock_ok, initialize, new_pool, settle, stake, stake_step, unstake, unstake_step,
    update_reward,
};
pub use error::MyErrors;
pub use laws::{
    apply_calls, lemma_conservation, lemma_reward_monotonic, lemma_stake_twice_same_slot, minted, run,
    slot_of, step, Instruction,
};
pub use reward::{compute_reward, reward_of, reward_result, REWARD_DIVISOR};
pub use state::{AccountKey, LedgerCalls, PoolInfo, PrincipalMove, UserInfo};
