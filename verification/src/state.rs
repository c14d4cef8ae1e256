//! The persistent records of the scheduler.
//!
//! `Config`, `Authority` and `Health` are process-wide singletons;
//! a `Daemon` is a per-owner scheduler instance whose monotonic
//! `task_count` sequences its tasks; a `Task` is one scheduled unit of
//! future work carrying an embedded instruction and execution window.

use vstd::prelude::*;

use crate::address::Address;
use crate::instruction::InstructionData;

verus! {

/// Process-wide configuration: the administrator identity and the
/// config record's own derivation salt.
pub struct Config {
    pub admin: Address,
    pub bump: u8,
}

/// The delegated identity that scheduled tasks execute under.
pub struct Authority {
    pub bump: u8,
}

/// A per-owner scheduler instance. `task_count` strictly increases by
/// one per admitted task and never decreases; its overflow is a fatal
/// error, never a wraparound.
pub struct Daemon {
    pub owner: Address,
    pub task_count: u64,
    pub bump: u8,
}

/// The liveness record: the last observed and the next expected
/// check-in timestamps.
pub struct Health {
    pub real_time: i64,
    pub target_time: i64,
    pub bump: u8,
}

/// The lifecycle state of a task. Admission always creates a task as
/// `Pending`; later transitions belong to the external execution worker
/// and are not modelled here.
#[derive(Clone, Copy, Debug, PartialEq, Eq, Structural)]
pub enum TaskStatus {
    Pending,
}

/// One scheduled unit of future work, owned by exactly one daemon at
/// exactly one sequence id.
pub struct Task {
    pub daemon: Address,
    pub id: u64,
    pub ix: InstructionData,
    pub status: TaskStatus,
    pub exec_at: i64,
    pub stop_at: i64,
    pub recurr: i64,
    pub bump: u8,
}

impl Config {
    pub open spec fn wf(&self) -> bool {
        self.admin.wf()
    }
}

impl Daemon {
    pub open spec fn wf(&self) -> bool {
        self.owner.wf()
    }
}

impl Task {
    /// A task's execution window is non-empty and its recurrence
    /// interval is non-negative: positive for a recurring task, zero
    /// for a one-shot.
    pub open spec fn wf(&self) -> bool {
        &&& self.daemon.wf()
        &&& self.ix.wf()
        &&& self.exec_at <= self.stop_at
        &&& self.recurr >= 0
    }
}

} // verus!
