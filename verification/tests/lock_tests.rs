use exwlshellev::lock::{LockEvent, LockLifecycle, LockNotice, LockStep, LockTeardown};

#[test]
fn lock_request_then_locked() {
    let mut state = LockLifecycle::Unlocked;
    let steps = state.advance(LockEvent::RequestLock, true);
    assert_eq!(steps, vec![LockStep::CreateLock]);
    assert_eq!(state, LockLifecycle::Pending { teardown: None });
    let steps = state.advance(LockEvent::CompositorLocked, true);
    assert_eq!(steps, vec![LockStep::Notify(LockNotice::Locked)]);
    assert_eq!(state, LockLifecycle::Locked);
}

#[test]
fn lock_without_manager_is_denied() {
    let mut state = LockLifecycle::Unlocked;
    let steps = state.advance(LockEvent::RequestLock, false);
    assert_eq!(steps, vec![LockStep::Notify(LockNotice::LockDenied)]);
    assert_eq!(state, LockLifecycle::Unlocked);
}

#[test]
fn duplicate_lock_request_is_ignored() {
    let mut state = LockLifecycle::Locked;
    let steps = state.advance(LockEvent::RequestLock, true);
    assert_eq!(steps, vec![LockStep::Warn]);
    assert_eq!(state, LockLifecycle::Locked);
}

#[test]
fn exit_while_pending_waits_for_answer() {
    let mut state = LockLifecycle::Pending { teardown: None };
    let steps = state.advance(LockEvent::RequestExit, true);
    assert!(steps.is_empty());
    assert_eq!(state, LockLifecycle::Pending { teardown: Some(LockTeardown::Exit) });
    let steps = state.advance(LockEvent::CompositorLocked, true);
    assert_eq!(
        steps,
        vec![
            LockStep::UnlockAndDestroy,
            LockStep::RemoveLockUnits,
            LockStep::Roundtrip,
            LockStep::StopLoop
        ]
    );
    assert_eq!(state, LockLifecycle::Unlocked);
}

#[test]
fn unlock_while_pending_keeps_exit() {
    let mut state = LockLifecycle::Pending { teardown: Some(LockTeardown::Exit) };
    let steps = state.advance(LockEvent::RequestUnlock, true);
    assert!(steps.is_empty());
    assert_eq!(state, LockLifecycle::Pending { teardown: Some(LockTeardown::Exit) });
}

#[test]
fn unlock_while_pending_then_locked_unlocks() {
    let mut state = LockLifecycle::Pending { teardown: None };
    state.advance(LockEvent::RequestUnlock, true);
    let steps = state.advance(LockEvent::CompositorLocked, true);
    assert_eq!(
        steps,
        vec![LockStep::UnlockAndDestroy, LockStep::RemoveLockUnits, LockStep::Flush]
    );
    assert_eq!(state, LockLifecycle::Unlocked);
}

#[test]
fn finished_while_pending_is_denied() {
    let mut state = LockLifecycle::Pending { teardown: None };
    let steps = state.advance(LockEvent::CompositorFinished, true);
    assert_eq!(
        steps,
        vec![
            LockStep::Destroy,
            LockStep::Flush,
            LockStep::RemoveLockUnits,
            LockStep::Notify(LockNotice::LockDenied)
        ]
    );
    assert_eq!(state, LockLifecycle::Unlocked);
}

#[test]
fn finished_while_locked_ends_lock() {
    let mut state = LockLifecycle::Locked;
    let steps = state.advance(LockEvent::CompositorFinished, true);
    assert_eq!(
        steps,
        vec![
            LockStep::UnlockAndDestroy,
            LockStep::Flush,
            LockStep::RemoveLockUnits,
            LockStep::Notify(LockNotice::LockFinished)
        ]
    );
}

#[test]
fn stray_compositor_events_warn() {
    let mut state = LockLifecycle::Unlocked;
    assert_eq!(state.advance(LockEvent::CompositorLocked, true), vec![LockStep::Warn]);
    assert_eq!(state.advance(LockEvent::CompositorFinished, true), vec![LockStep::Warn]);
    assert_eq!(state, LockLifecycle::Unlocked);
}

#[test]
fn exit_when_locked_releases_lock() {
    let mut state = LockLifecycle::Locked;
    let steps = state.advance(LockEvent::RequestExit, true);
    assert_eq!(
        steps,
        vec![
            LockStep::UnlockAndDestroy,
            LockStep::Roundtrip,
            LockStep::RemoveLockUnits,
            LockStep::StopLoop
        ]
    );
    let mut idle = LockLifecycle::Unlocked;
    assert_eq!(idle.advance(LockEvent::RequestExit, true), vec![LockStep::StopLoop]);
}
