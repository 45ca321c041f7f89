//! Properties of the task lifecycle, proved once and for all over the
//! mathematical state of a task control block.

use vstd::prelude::*;

use crate::task::MAX_SYSCALL_NUM;
use crate::task::TcbView;
use crate::task::spec_call;
use crate::task::spec_exit;
use crate::task::spec_info;
use crate::task::spec_init;
use crate::task::spec_is_ready;
use crate::task::spec_ready;
use crate::task::spec_run;

verus! {

/// One scheduling decision the scheduler can apply to a task: mark it
/// ready, or schedule it at a given time (in milliseconds).
pub enum SchedEvent {
    /// The task is marked eligible to run.
    Ready,
    /// The task is scheduled at the carried time.
    Run(usize),
}

/// The state a task reaches after one scheduling event.
pub open spec fn sched_step(v: TcbView, e: SchedEvent) -> TcbView {
    match e {
        SchedEvent::Ready => spec_ready(v),
        SchedEvent::Run(now) => spec_run(v, now),
    }
}

/// The state a task reaches after a whole sequence of scheduling events,
/// applied in order.
pub open spec fn sched_steps(v: TcbView, es: Seq<SchedEvent>) -> TcbView
    decreases es.len(),
{
    if es.len() == 0 {
        v
    } else {
        sched_steps(sched_step(v, es[0]), es.drop_first())
    }
}

/// Once the first-scheduled time is set, no sequence of ready/run events
/// ever changes it (and none changes the counters either).
pub proof fn lemma_first_schedule_persists(v: TcbView, es: Seq<SchedEvent>)
    requires
        v.time is Some,
    ensures
        sched_steps(v, es).time == v.time,
        sched_steps(v, es).counts == v.counts,
    decreases es.len(),
{
    if es.len() > 0 {
        lemma_first_schedule_persists(sched_step(v, es[0]), es.drop_first());
    }
}

/// On a task that has never run, the first `Run` event of a sequence of
/// ready/run events sets the first-scheduled time to that event's time,
/// and every later event leaves it alone.
pub proof fn lemma_first_run_sets_time(v: TcbView, es: Seq<SchedEvent>, i: int)
    requires
        v.time is None,
        0 <= i < es.len(),
        es[i] is Run,
        forall|j: int| 0 <= j < i ==> es[j] is Ready,
    ensures
        sched_steps(v, es).time == Some(es[i]->0),
    decreases es.len(),
{
    if i == 0 {
        lemma_first_schedule_persists(sched_step(v, es[0]), es.drop_first());
    } else {
        lemma_first_run_sets_time(sched_step(v, es[0]), es.drop_first(), i - 1);
    }
}

/// A task reads as ready immediately after being marked ready, and as
/// not ready immediately after being scheduled or exited.
pub proof fn lemma_is_ready_transitions(v: TcbView, now: usize)
    ensures
        spec_is_ready(spec_ready(v)),
        !spec_is_ready(spec_run(v, now)),
        !spec_is_ready(spec_exit(v)),
{
}

/// The counter table reached from a fresh task by recording the system
/// call `id` exactly `n` times.
pub open spec fn repeat_call(v: TcbView, id: int, n: nat) -> TcbView
    decreases n,
{
    if n == 0 {
        v
    } else {
        spec_call(repeat_call(v, id, (n - 1) as nat), id)
    }
}

/// Recording a valid system call exactly `n` times on a fresh task
/// leaves that call's counter at `n` and every other counter at zero.
pub proof fn lemma_repeat_call_counts(id: int, n: nat)
    requires
        0 <= id < MAX_SYSCALL_NUM,
        n <= u32::MAX,
    ensures
        repeat_call(spec_init(), id, n).counts.len() == MAX_SYSCALL_NUM,
        repeat_call(spec_init(), id, n).counts[id] == n,
        forall|j: int|
            0 <= j < MAX_SYSCALL_NUM && j != id ==> repeat_call(
                spec_init(),
                id,
                n,
            ).counts[j] == 0,
    decreases n,
{
    if n > 0 {
        lemma_repeat_call_counts(id, (n - 1) as nat);
    }
}

/// Syscall counters never decrease: scheduling events leave them all
/// unchanged, and recording a call (below its counter's capacity, as the
/// recording operations require) leaves every counter at least as large.
pub proof fn lemma_counts_nondecreasing(v: TcbView, e: SchedEvent, id: int)
    requires
        0 <= id < v.counts.len(),
        v.counts[id] < u32::MAX,
    ensures
        sched_step(v, e).counts == v.counts,
        spec_exit(v).counts == v.counts,
        forall|j: int| 0 <= j < v.counts.len() ==> spec_call(v, id).counts[j] >= v.counts[j],
{
}

/// Two snapshots with no mutation in between agree on the status and on
/// every counter, and the elapsed time of the later one is no smaller.
pub proof fn lemma_snapshot_stable(v: TcbView, now1: usize, now2: usize)
    requires
        now1 <= now2,
    ensures
        spec_info(v, now1).status == spec_info(v, now2).status,
        spec_info(v, now1).counts == spec_info(v, now2).counts,
        spec_info(v, now1).elapsed <= spec_info(v, now2).elapsed,
{
}

} // verus!
