//! Lifecycle and accounting metadata of a single schedulable task.
//!
//! The task control block records what state a task is in, when it was
//! first scheduled, and how many times it has invoked each system call.
//! The scheduler drives the state transitions, the system-call dispatcher
//! bumps the per-call counters, and introspection paths take snapshots.

mod laws;
mod task;

pub use laws::SchedEvent;
pub use laws::lemma_counts_nondecreasing;
pub use laws::lemma_first_run_sets_time;
pub use laws::lemma_first_schedule_persists;
pub use laws::lemma_is_ready_transitions;
pub use laws::lemma_repeat_call_counts;
pub use laws::lemma_snapshot_stable;
pub use laws::repeat_call;
pub use laws::sched_step;
pub use laws::sched_steps;
pub use task::InfoView;
pub use task::MAX_SYSCALL_NUM;
pub use task::TaskContext;
pub use task::TaskControlBlock;
pub use task::TaskInfo;
pub use task::TaskStatus;
pub use task::TcbView;
pub use task::spec_call;
pub use task::spec_elapsed;
pub use task::spec_exit;
pub use task::spec_info;
pub use task::spec_init;
pub use task::spec_is_ready;
pub use task::spec_ready;
pub use task::spec_run;
