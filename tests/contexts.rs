use cold::rt::{Interest, Reg, TaskContexts, WaitReason};

#[test]
fn spawned_task_has_no_wait_reason() {
    let mut contexts: TaskContexts<usize> = TaskContexts::new();
    contexts.spawned(3);
    assert_eq!(contexts.wait_reason(&3), None);
    assert_eq!(contexts.len(), 1);
}

#[test]
fn register_records_io_wait() {
    let mut contexts: TaskContexts<usize> = TaskContexts::new();
    contexts.spawned(1);
    contexts.record(1, &Reg::Reg(12, Interest::Readable));
    assert_eq!(contexts.wait_reason(&1), Some(WaitReason::Io(12)));
    contexts.record(1, &Reg::ReReg(13, Interest::Readable));
    assert_eq!(contexts.wait_reason(&1), Some(WaitReason::Io(13)));
    contexts.record(1, &Reg::DeReg);
    assert_eq!(contexts.wait_reason(&1), None);
}

#[test]
fn respawn_replaces_context() {
    let mut contexts: TaskContexts<String> = TaskContexts::new();
    contexts.record("a".to_string(), &Reg::Reg(2, Interest::Readable));
    contexts.spawned("a".to_string());
    assert_eq!(contexts.wait_reason(&"a".to_string()), None);
    assert_eq!(contexts.len(), 1);
}

#[test]
fn finish_erases_context() {
    let mut contexts: TaskContexts<usize> = TaskContexts::new();
    contexts.spawned(1);
    contexts.spawned(2);
    contexts.finish(&1);
    assert_eq!(contexts.len(), 1);
    assert_eq!(contexts.wait_reason(&1), None);
    contexts.finish(&7);
    assert_eq!(contexts.len(), 1);
}

#[test]
fn unknown_task_has_no_wait_reason() {
    let contexts: TaskContexts<usize> = TaskContexts::new();
    assert_eq!(contexts.wait_reason(&42), None);
}

#[test]
fn rejected_request_keeps_wait_reason() {
    let mut contexts: TaskContexts<usize> = TaskContexts::new();
    contexts.spawned(1);
    contexts.requested(1, &Reg::Reg(4, Interest::Readable), false);
    assert_eq!(contexts.wait_reason(&1), None);
    contexts.requested(1, &Reg::Reg(4, Interest::ReadWrite), true);
    assert_eq!(contexts.wait_reason(&1), Some(WaitReason::Io(4)));
    contexts.requested(1, &Reg::DeReg, false);
    assert_eq!(contexts.wait_reason(&1), Some(WaitReason::Io(4)));
    contexts.requested(1, &Reg::DeReg, true);
    assert_eq!(contexts.wait_reason(&1), None);
}
