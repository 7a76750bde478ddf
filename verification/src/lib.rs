//! Ledger-backed escrow and token-distribution engine.
//!
//! A task marketplace: a creator locks a reward into escrow, one or more
//! assignees complete work and claim a share, and a companion rate-limited
//! faucet hands out bounded token amounts per identity per cooldown window.
//!
//! The library holds the state-transition and accounting logic: the task
//! lifecycle with its time-locked reward decrease and multi-assignee claim
//! tracking, and the faucet's rate-limiting accounting.  The host runtime
//! that persists records, verifies signatures, supplies the clock and moves
//! token balances between accounts is out of scope; every operation here
//! takes the balances it touches as plain `&mut u64` values and the current
//! time as an argument, and states exactly how it changes them.

pub mod errors;
pub mod state;
pub mod task;
pub mod task_reward;
pub mod faucet;
pub mod utils;
