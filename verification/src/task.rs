//! The task control block and its state transitions.

use vstd::prelude::*;

verus! {

/// Number of distinct system-call identifiers the counters cover.
/// A valid identifier lies in `[0, MAX_SYSCALL_NUM)`.
pub const MAX_SYSCALL_NUM: usize = 500;

/// The lifecycle stage of a task.
#[derive(Clone, Copy, Debug, PartialEq, Eq, Structural)]
pub enum TaskStatus {
    /// Freshly allocated, never scheduled.
    UnInit,
    /// Eligible to be picked by the scheduler.
    Ready,
    /// Currently scheduled on a processor.
    Running,
    /// Finished; terminal as far as the scheduler is concerned.
    Exited,
}

impl Default for TaskStatus {
    /// A freshly constructed task starts out uninitialized.
    fn default() -> (r: Self)
        ensures
            r == TaskStatus::UnInit,
    {
        TaskStatus::UnInit
    }
}

/// The saved execution context of a task: the callee-saved state the
/// context-switch mechanism needs to resume it. This module stores it on
/// behalf of that mechanism and never inspects it.
#[derive(Clone, Copy, Debug, PartialEq, Eq, Structural)]
pub struct TaskContext {
    /// Saved return address.
    pub ra: usize,
    /// Saved stack pointer.
    pub sp: usize,
}

impl Default for TaskContext {
    /// An all-zero context, as a freshly allocated task slot holds.
    fn default() -> (r: Self)
        ensures
            r == (TaskContext { ra: 0, sp: 0 }),
    {
        TaskContext { ra: 0, sp: 0 }
    }
}

/// The mathematical state of a task control block: everything the
/// scheduler, dispatcher and introspection paths observe through it.
/// The saved execution context is deliberately absent — this module
/// never reads it, it only keeps it unchanged.
#[verifier::ext_equal]
pub ghost struct TcbView {
    /// Current lifecycle stage.
    pub status: TaskStatus,
    /// The time (in milliseconds) the task first entered `Running`,
    /// absent until that happens.
    pub time: Option<usize>,
    /// Invocation count per system-call identifier.
    pub counts: Seq<u32>,
}

/// The task control block: one per task, owned by the task table for the
/// task's whole lifetime.
#[derive(Clone)]
pub struct TaskControlBlock {
    /// The task's lifecycle stage.
    pub task_status: TaskStatus,
    /// Time of the first transition into `Running`, if it has happened.
    pub time: Option<usize>,
    /// How many times the task has invoked each system call, indexed by
    /// system-call identifier.
    pub syscal_times: Vec<u32>,
    /// Opaque saved execution context, written by the context-switch
    /// mechanism and never interpreted here.
    pub task_cx: TaskContext,
}

impl View for TaskControlBlock {
    type V = TcbView;

    open spec fn view(&self) -> TcbView {
        TcbView { status: self.task_status, time: self.time, counts: self.syscal_times@ }
    }
}

/// Marking a task ready changes its status and nothing else.
pub open spec fn spec_ready(v: TcbView) -> TcbView {
    TcbView { status: TaskStatus::Ready, ..v }
}

/// A task is ready exactly when its status says so.
pub open spec fn spec_is_ready(v: TcbView) -> bool {
    v.status is Ready
}

/// Scheduling a task at time `now` makes it running and, the first time
/// only, records `now` as its first-scheduled time.
pub open spec fn spec_run(v: TcbView, now: usize) -> TcbView {
    TcbView {
        status: TaskStatus::Running,
        time: if v.time is None {
            Some(now)
        } else {
            v.time
        },
        ..v
    }
}

/// Exiting changes the status alone: the timestamp and the counters stay
/// readable through later snapshots.
pub open spec fn spec_exit(v: TcbView) -> TcbView {
    TcbView { status: TaskStatus::Exited, ..v }
}

/// Recording a system call bumps exactly the counter of its identifier.
pub open spec fn spec_call(v: TcbView, id: int) -> TcbView {
    TcbView { counts: v.counts.update(id, (v.counts[id] + 1) as u32), ..v }
}

/// The state of a freshly constructed task control block: uninitialized,
/// never scheduled, every counter zero.
pub open spec fn spec_init() -> TcbView {
    TcbView {
        status: TaskStatus::UnInit,
        time: None,
        counts: Seq::new(MAX_SYSCALL_NUM as nat, |i: int| 0u32),
    }
}

/// What a snapshot reports: the elapsed time is measured from the
/// first-scheduled time, or — for a task that never ran — from time zero,
/// reproducing the permissive behaviour this module documents.
pub open spec fn spec_elapsed(v: TcbView, now: usize) -> int {
    now - (if v.time is Some {
        v.time->0
    } else {
        0
    })
}

impl TaskControlBlock {
    /// The counter table always covers the whole identifier space.
    pub open spec fn wf(&self) -> bool {
        self.syscal_times@.len() == MAX_SYSCALL_NUM
    }

    /// Make the task eligible for scheduling. The transition is
    /// unconditional: legality is the calling scheduler's business.
    pub fn ready(&mut self)
        ensures
            final(self)@ == spec_ready(old(self)@),
            final(self).task_cx == old(self).task_cx,
            final(self).wf() == old(self).wf(),
    {
        self.task_status = TaskStatus::Ready;
    }

    /// Whether the task is currently eligible to be picked.
    pub fn is_ready(&self) -> (r: bool)
        ensures
            r == spec_is_ready(self@),
    {
        self.task_status == TaskStatus::Ready
    }

    /// Schedule the task: set it running and, if it has never run before,
    /// record `now` (milliseconds) as its first-scheduled time. Calling
    /// this again later never resets the recorded time.
    pub fn run(&mut self, now: usize)
        ensures
            final(self)@ == spec_run(old(self)@, now),
            final(self).task_cx == old(self).task_cx,
            final(self).wf() == old(self).wf(),
    {
        self.task_status = TaskStatus::Running;
        if self.time.is_none() {
            self.time = Some(now);
        }
    }

    /// End the task's active lifecycle. Counters and the first-scheduled
    /// time are kept so that later snapshots can still report them.
    pub fn exit(&mut self)
        ensures
            final(self)@ == spec_exit(old(self)@),
            final(self).task_cx == old(self).task_cx,
            final(self).wf() == old(self).wf(),
    {
        self.task_status = TaskStatus::Exited;
    }

    /// Count one invocation of the system call named by `syscall_id`.
    /// An identifier outside `[0, MAX_SYSCALL_NUM)` is a programming
    /// error in the dispatcher, ruled out here by precondition; callers
    /// that cannot establish the bound go through [`Self::try_call`].
    pub fn call(&mut self, syscall_id: usize)
        requires
            old(self).wf(),
            syscall_id < MAX_SYSCALL_NUM,
            old(self)@.counts[syscall_id as int] < u32::MAX,
        ensures
            final(self)@ == spec_call(old(self)@, syscall_id as int),
            final(self).task_cx == old(self).task_cx,
            final(self).wf(),
    {
        let c = self.syscal_times[syscall_id];
        self.syscal_times.set(syscall_id, c + 1);
    }

    /// Bounds-checked counting: records the invocation when `syscall_id`
    /// is in range and reports whether it was. An out-of-range identifier
    /// is rejected loudly — the caller learns of it and the block is
    /// untouched; no counter at a wrong index is ever bumped.
    pub fn try_call(&mut self, syscall_id: usize) -> (ok: bool)
        requires
            old(self).wf(),
            syscall_id < MAX_SYSCALL_NUM ==> old(self)@.counts[syscall_id as int] < u32::MAX,
        ensures
            ok == (syscall_id < MAX_SYSCALL_NUM),
            ok ==> final(self)@ == spec_call(old(self)@, syscall_id as int),
            !ok ==> final(self)@ == old(self)@,
            final(self).task_cx == old(self).task_cx,
            final(self).wf(),
    {
        if syscall_id < MAX_SYSCALL_NUM {
            self.call(syscall_id);
            true
        } else {
            false
        }
    }

    /// Take a point-in-time snapshot at time `now` (milliseconds): the
    /// current status, a copy of the counters that later task activity
    /// cannot touch, and the elapsed time since the task was first
    /// scheduled. For a task that never ran the elapsed time falls back
    /// to `now` itself — see [`spec_elapsed`].
    pub fn info(&self, now: usize) -> (r: TaskInfo)
        requires
            self@.time matches Some(t) ==> t <= now,
        ensures
            r@ == spec_info(self@, now),
    {
        let base: usize = match self.time {
            Some(t) => t,
            None => 0,
        };
        let counts = self.syscal_times.clone();
        TaskInfo { status: self.task_status, syscall_times: counts, time: now - base }
    }
}

impl Default for TaskControlBlock {
    /// A freshly allocated task slot: uninitialized, never scheduled,
    /// every counter zero, zeroed execution context.
    fn default() -> (r: Self)
        ensures
            r.wf(),
            r@ == spec_init(),
            r.task_cx == (TaskContext { ra: 0, sp: 0 }),
    {
        let mut counts: Vec<u32> = Vec::new();
        let mut i: usize = 0;
        while i < MAX_SYSCALL_NUM
            invariant
                i <= MAX_SYSCALL_NUM,
                counts@.len() == i,
                forall|j: int| 0 <= j < i ==> counts@[j] == 0u32,
            decreases MAX_SYSCALL_NUM - i,
        {
            counts.push(0);
            i = i + 1;
        }
        TaskControlBlock {
            task_status: TaskStatus::UnInit,
            time: None,
            syscal_times: counts,
            task_cx: TaskContext { ra: 0, sp: 0 },
        }
    }
}

impl AsMut<TaskControlBlock> for TaskControlBlock {
    /// The block as its own mutable reference, for callers generic over
    /// `AsMut`.
    fn as_mut(&mut self) -> (r: &mut TaskControlBlock)
        ensures
            *r == *old(self),
            *final(self) == *final(r),
    {
        self
    }
}

/// What a snapshot holds, mathematically: the status and counters at the
/// moment it was taken, and the elapsed time as an unbounded integer.
#[verifier::ext_equal]
pub ghost struct InfoView {
    /// Lifecycle stage at snapshot time.
    pub status: TaskStatus,
    /// Counter table at snapshot time.
    pub counts: Seq<u32>,
    /// Milliseconds since the task was first scheduled (or since time
    /// zero, for a task that never ran).
    pub elapsed: int,
}

/// The snapshot a block in state `v` yields at time `now`.
pub open spec fn spec_info(v: TcbView, now: usize) -> InfoView {
    InfoView { status: v.status, counts: v.counts, elapsed: spec_elapsed(v, now) }
}

/// A point-in-time view of one task, produced by
/// [`TaskControlBlock::info`] for diagnostics and the "task info" query
/// path. It owns its counter table: later activity on the live block
/// does not show through.
#[derive(Clone)]
pub struct TaskInfo {
    /// Lifecycle stage when the snapshot was taken.
    pub status: TaskStatus,
    /// Copy of the per-syscall invocation counters.
    pub syscall_times: Vec<u32>,
    /// Total running time of the task in milliseconds.
    pub time: usize,
}

impl View for TaskInfo {
    type V = InfoView;

    open spec fn view(&self) -> InfoView {
        InfoView { status: self.status, counts: self.syscall_times@, elapsed: self.time as int }
    }
}

} // verus!
