//! Task admission and deterministic addressing for a ledger-based scheduler.
//!
//! A `Daemon` owns a gap-free sequence of scheduled `Task` records. Admitting
//! a task validates an authorization chain, derives the task's address from
//! the daemon's address and its monotonic counter, computes the execution
//! window, embeds a self-describing instruction, and advances the counter.

pub mod address;
pub mod admission;
pub mod codec;
pub mod error;
pub mod instruction;
pub mod laws;
pub mod pda;
pub mod seeds;
pub mod state;
