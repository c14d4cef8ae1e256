//! Laws of the admission path that relate several operations.
//!
//! The contracts in `admission` pin down one call; the lemmas here state
//! what holds across calls: a failed admission changes nothing and so
//! retargets the identical address, and a run of successful admissions
//! yields a gap-free, distinctly numbered task sequence.

use vstd::prelude::*;

use crate::admission::AdminScheduleHealthCheck;
use crate::admission::task_target;
use crate::state::Daemon;
use crate::state::Task;

verus! {

/// Idempotent recoverability: an admission that failed leaves the
/// context exactly as it was (see `handler`'s contract), and the target
/// address is a pure function of the daemon's address, its counter and
/// the salt — so a retry under the unchanged context targets the
/// identical address, with no spurious state in between.
pub proof fn lemma_retry_targets_same_address(
    pre: AdminScheduleHealthCheck,
    retry: AdminScheduleHealthCheck,
    bump: u8,
)
    requires
        retry == pre,
    ensures
        task_target(
            retry.daemon_account.address@,
            retry.daemon.task_count,
            bump,
            retry.program_id@,
        ) == task_target(
            pre.daemon_account.address@,
            pre.daemon.task_count,
            bump,
            pre.program_id@,
        ),
{
}

/// One successful admission, as `handler`'s contract constrains the
/// daemon and the admitted task: the counter advances by exactly one,
/// nothing else of the daemon moves, and the task takes the old counter
/// as its sequence id.
pub open spec fn admission_step(pre: Daemon, post: Daemon, task: Task) -> bool {
    &&& pre.task_count < u64::MAX
    &&& post.task_count == pre.task_count + 1
    &&& post.owner == pre.owner
    &&& post.bump == pre.bump
    &&& task.id == pre.task_count
}

/// After `k` successful admissions from a fresh daemon, the counter
/// reads exactly `k`, and the admitted tasks carry the sequence ids
/// `0..k-1`: gap-free, and no two alike.
pub proof fn lemma_admission_sequence(daemons: Seq<Daemon>, tasks: Seq<Task>)
    requires
        daemons.len() == tasks.len() + 1,
        daemons[0].task_count == 0,
        forall|i: int|
            0 <= i < tasks.len() ==> admission_step(
                #[trigger] daemons[i],
                daemons[i + 1],
                tasks[i],
            ),
    ensures
        daemons.last().task_count == tasks.len(),
        forall|i: int| 0 <= i < tasks.len() ==> #[trigger] tasks[i].id == i,
        forall|i: int, j: int|
            0 <= i < j < tasks.len() ==> #[trigger] tasks[i].id != #[trigger] tasks[j].id,
    decreases tasks.len(),
{
    if tasks.len() == 0 {
    } else {
        let n = tasks.len() as int;
        assert forall|i: int|
            0 <= i < tasks.drop_last().len() implies admission_step(
            #[trigger] daemons.drop_last()[i],
            daemons.drop_last()[i + 1],
            tasks.drop_last()[i],
        ) by {
            assert(admission_step(daemons[i], daemons[i + 1], tasks[i]));
        }
        lemma_admission_sequence(daemons.drop_last(), tasks.drop_last());
        assert(daemons.drop_last().last() == daemons[n - 1]);
        assert(admission_step(daemons[n - 1], daemons[n], tasks[n - 1]));
        assert(daemons.last() == daemons[n]);
        assert forall|i: int| 0 <= i < tasks.len() implies #[trigger] tasks[i].id == i by {
            if i < n - 1 {
                assert(tasks.drop_last()[i].id == i);
            }
        }
    }
}

} // verus!
