use tcb::MAX_SYSCALL_NUM;
use tcb::TaskControlBlock;
use tcb::TaskStatus;

#[test]
fn fresh_block_defaults() {
    let t = TaskControlBlock::default();
    assert!(t.task_status == TaskStatus::UnInit);
    assert!(t.time.is_none());
    assert_eq!(t.syscal_times.len(), MAX_SYSCALL_NUM);
    for i in 0..MAX_SYSCALL_NUM {
        assert_eq!(t.syscal_times[i], 0);
    }
    assert_eq!(t.task_cx.ra, 0);
    assert_eq!(t.task_cx.sp, 0);
    assert!(!t.is_ready());
}

#[test]
fn ready_query_follows_transitions() {
    let mut t = TaskControlBlock::default();
    t.ready();
    assert!(t.is_ready());
    t.run(10);
    assert!(!t.is_ready());
    t.ready();
    assert!(t.is_ready());
    t.exit();
    assert!(!t.is_ready());
}

#[test]
fn first_schedule_time_persists() {
    let mut t = TaskControlBlock::default();
    t.ready();
    t.run(100);
    assert_eq!(t.time, Some(100));
    t.ready();
    assert_eq!(t.time, Some(100));
    t.run(200);
    assert_eq!(t.time, Some(100));
    let info = t.info(300);
    assert_eq!(info.time, 200);
}

#[test]
fn repeated_calls_count() {
    let mut t = TaskControlBlock::default();
    for _ in 0..5 {
        t.call(3);
    }
    t.call(0);
    let info = t.info(0);
    for i in 0..MAX_SYSCALL_NUM {
        let expected = match i {
            0 => 1,
            3 => 5,
            _ => 0,
        };
        assert_eq!(info.syscall_times[i], expected);
    }
}

#[test]
fn out_of_range_syscall_rejected() {
    let mut t = TaskControlBlock::default();
    assert!(t.try_call(MAX_SYSCALL_NUM - 1));
    assert!(!t.try_call(MAX_SYSCALL_NUM));
    assert!(!t.try_call(MAX_SYSCALL_NUM + 7));
    let info = t.info(0);
    for i in 0..MAX_SYSCALL_NUM {
        let expected = if i == MAX_SYSCALL_NUM - 1 { 1 } else { 0 };
        assert_eq!(info.syscall_times[i], expected);
    }
    assert!(t.time.is_none());
}

#[test]
fn snapshots_stable_without_mutation() {
    let mut t = TaskControlBlock::default();
    t.run(100);
    t.call(42);
    let a = t.info(200);
    let b = t.info(200);
    assert!(a.status == b.status);
    assert_eq!(a.syscall_times, b.syscall_times);
    assert_eq!(a.time, b.time);
    let c = t.info(260);
    assert!(a.status == c.status);
    assert_eq!(a.syscall_times, c.syscall_times);
    assert!(c.time >= a.time);
    assert_eq!(c.time, 160);
}

#[test]
fn snapshot_is_value_copy() {
    let mut t = TaskControlBlock::default();
    t.call(7);
    let info = t.info(0);
    t.call(7);
    t.call(8);
    assert_eq!(info.syscall_times[7], 1);
    assert_eq!(info.syscall_times[8], 0);
    assert_eq!(t.syscal_times[7], 2);
}

#[test]
fn scenario_full_lifecycle() {
    let mut t = TaskControlBlock::default();
    assert!(t.task_status == TaskStatus::UnInit);
    for i in 0..MAX_SYSCALL_NUM {
        assert_eq!(t.syscal_times[i], 0);
    }
    t.ready();
    assert!(t.is_ready());
    t.run(100);
    t.call(3);
    t.call(3);
    t.exit();
    let info = t.info(150);
    assert!(info.status == TaskStatus::Exited);
    assert_eq!(info.syscall_times[3], 2);
    assert_eq!(info.time, 50);
}

#[test]
fn scenario_snapshot_before_first_run() {
    let t = TaskControlBlock::default();
    let info = t.info(42);
    assert_eq!(info.time, 42);
    assert!(info.status == TaskStatus::UnInit);
    let at_zero = t.info(0);
    assert_eq!(at_zero.time, 0);
}
