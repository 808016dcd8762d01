//! The session-lock lifecycle.
//!
//! A lock is requested from the compositor, confirmed (`locked`) or refused
//! (`finished`), and later released. Requests to unlock or to exit that
//! arrive while the compositor has not answered yet are remembered and
//! carried out when the answer comes.

use vstd::prelude::*;

verus! {

/// What to do with a pending lock once the compositor answers.
#[derive(Debug, Clone, Copy, PartialEq, Eq, Structural)]
pub enum LockTeardown {
    Unlock,
    Exit,
}

/// Where the session lock stands. The lock object itself is held by the
/// caller next to this value.
#[derive(Debug, Clone, Copy, PartialEq, Eq, Structural)]
pub enum LockLifecycle {
    Unlocked,
    Pending { teardown: Option<LockTeardown> },
    Locked,
}

/// The inputs of the lifecycle: the two compositor events and the three
/// requests of the program.
#[derive(Debug, Clone, Copy, PartialEq, Eq, Structural)]
pub enum LockEvent {
    /// `ext_session_lock_v1.locked`
    CompositorLocked,
    /// `ext_session_lock_v1.finished`
    CompositorFinished,
    RequestExit,
    RequestLock,
    RequestUnlock,
}

/// Notices handed to the program.
#[derive(Debug, Clone, Copy, PartialEq, Eq, Structural)]
pub enum LockNotice {
    Locked,
    LockDenied,
    LockFinished,
}

/// One step the caller carries out, in the order given.
#[derive(Debug, Clone, Copy, PartialEq, Eq, Structural)]
pub enum LockStep {
    /// ask the lock manager for a lock and create one lock surface per output
    CreateLock,
    /// `unlock_and_destroy` on the held lock
    UnlockAndDestroy,
    /// `destroy` on the held lock, without unlocking
    Destroy,
    /// drop every session-lock surface
    RemoveLockUnits,
    /// flush the connection
    Flush,
    /// roundtrip the connection
    Roundtrip,
    /// tell the program
    Notify(LockNotice),
    /// stop the event loop
    StopLoop,
    /// the event does not fit the state; log it and ignore it
    Warn,
}

/// The lifecycle's transition table: the next state and the steps, in order.
pub open spec fn lock_transition(state: LockLifecycle, event: LockEvent, has_manager: bool) -> (
    LockLifecycle,
    Seq<LockStep>,
) {
    match event {
        LockEvent::CompositorLocked => match state {
            LockLifecycle::Pending { teardown: Some(LockTeardown::Exit) } => (
                LockLifecycle::Unlocked,
                seq![
                    LockStep::UnlockAndDestroy,
                    LockStep::RemoveLockUnits,
                    LockStep::Roundtrip,
                    LockStep::StopLoop,
                ],
            ),
            LockLifecycle::Pending { teardown: Some(LockTeardown::Unlock) } => (
                LockLifecycle::Unlocked,
                seq![LockStep::UnlockAndDestroy, LockStep::RemoveLockUnits, LockStep::Flush],
            ),
            LockLifecycle::Pending { teardown: None } => (
                LockLifecycle::Locked,
                seq![LockStep::Notify(LockNotice::Locked)],
            ),
            _ => (state, seq![LockStep::Warn]),
        },
        LockEvent::CompositorFinished => match state {
            LockLifecycle::Pending { teardown } => (
                LockLifecycle::Unlocked,
                if teardown == Some(LockTeardown::Exit) {
                    seq![
                        LockStep::Destroy,
                        LockStep::Flush,
                        LockStep::RemoveLockUnits,
                        LockStep::Notify(LockNotice::LockDenied),
                        LockStep::StopLoop,
                    ]
                } else {
                    seq![
                        LockStep::Destroy,
                        LockStep::Flush,
                        LockStep::RemoveLockUnits,
                        LockStep::Notify(LockNotice::LockDenied),
                    ]
                },
            ),
            LockLifecycle::Locked => (
                LockLifecycle::Unlocked,
                seq![
                    LockStep::UnlockAndDestroy,
                    LockStep::Flush,
                    LockStep::RemoveLockUnits,
                    LockStep::Notify(LockNotice::LockFinished),
                ],
            ),
            LockLifecycle::Unlocked => (state, seq![LockStep::Warn]),
        },
        LockEvent::RequestExit => match state {
            LockLifecycle::Locked => (
                LockLifecycle::Unlocked,
                seq![
                    LockStep::UnlockAndDestroy,
                    LockStep::Roundtrip,
                    LockStep::RemoveLockUnits,
                    LockStep::StopLoop,
                ],
            ),
            LockLifecycle::Pending { .. } => (
                LockLifecycle::Pending { teardown: Some(LockTeardown::Exit) },
                Seq::empty(),
            ),
            LockLifecycle::Unlocked => (state, seq![LockStep::StopLoop]),
        },
        LockEvent::RequestLock => match state {
            LockLifecycle::Unlocked => if has_manager {
                (LockLifecycle::Pending { teardown: None }, seq![LockStep::CreateLock])
            } else {
                (state, seq![LockStep::Notify(LockNotice::LockDenied)])
            },
            _ => (state, seq![LockStep::Warn]),
        },
        LockEvent::RequestUnlock => match state {
            LockLifecycle::Locked => (
                LockLifecycle::Unlocked,
                seq![LockStep::UnlockAndDestroy, LockStep::Flush, LockStep::RemoveLockUnits],
            ),
            LockLifecycle::Pending { teardown } => (
                LockLifecycle::Pending {
                    teardown: if teardown is Some {
                        teardown
                    } else {
                        Some(LockTeardown::Unlock)
                    },
                },
                Seq::empty(),
            ),
            LockLifecycle::Unlocked => (state, Seq::empty()),
        },
    }
}

/// Whether the state holds a lock object of the compositor.
pub open spec fn holds_lock(state: LockLifecycle) -> bool {
    !(state is Unlocked)
}

/// How many of the steps give the lock object back.
pub open spec fn releases(steps: Seq<LockStep>) -> nat {
    steps.filter(|s: LockStep| s == LockStep::UnlockAndDestroy || s == LockStep::Destroy).len()
}

impl LockLifecycle {
    /// Advances the lifecycle on `event` and returns the steps to carry out.
    /// `has_manager` tells whether the compositor offers a lock manager.
    pub fn advance(&mut self, event: LockEvent, has_manager: bool) -> (steps: Vec<LockStep>)
        ensures
            (*final(self), steps@) == lock_transition(*old(self), event, has_manager),
    {
        let state = *self;
        match event {
            LockEvent::CompositorLocked => match state {
                LockLifecycle::Pending { teardown: Some(LockTeardown::Exit) } => {
                    *self = LockLifecycle::Unlocked;
                    vec![
                        LockStep::UnlockAndDestroy,
                        LockStep::RemoveLockUnits,
                        LockStep::Roundtrip,
                        LockStep::StopLoop,
                    ]
                },
                LockLifecycle::Pending { teardown: Some(LockTeardown::Unlock) } => {
                    *self = LockLifecycle::Unlocked;
                    vec![LockStep::UnlockAndDestroy, LockStep::RemoveLockUnits, LockStep::Flush]
                },
                LockLifecycle::Pending { teardown: None } => {
                    *self = LockLifecycle::Locked;
                    vec![LockStep::Notify(LockNotice::Locked)]
                },
                _ => vec![LockStep::Warn],
            },
            LockEvent::CompositorFinished => match state {
                LockLifecycle::Pending { teardown } => {
                    *self = LockLifecycle::Unlocked;
                    let mut steps = vec![
                        LockStep::Destroy,
                        LockStep::Flush,
                        LockStep::RemoveLockUnits,
                        LockStep::Notify(LockNotice::LockDenied),
                    ];
                    if teardown == Some(LockTeardown::Exit) {
                        steps.push(LockStep::StopLoop);
                    }
                    steps
                },
                LockLifecycle::Locked => {
                    *self = LockLifecycle::Unlocked;
                    vec![
                        LockStep::UnlockAndDestroy,
                        LockStep::Flush,
                        LockStep::RemoveLockUnits,
                        LockStep::Notify(LockNotice::LockFinished),
                    ]
                },
                LockLifecycle::Unlocked => vec![LockStep::Warn],
            },
            LockEvent::RequestExit => match state {
                LockLifecycle::Locked => {
                    *self = LockLifecycle::Unlocked;
                    vec![
                        LockStep::UnlockAndDestroy,
                        LockStep::Roundtrip,
                        LockStep::RemoveLockUnits,
                        LockStep::StopLoop,
                    ]
                },
                LockLifecycle::Pending { .. } => {
                    *self = LockLifecycle::Pending { teardown: Some(LockTeardown::Exit) };
                    Vec::new()
                },
                LockLifecycle::Unlocked => vec![LockStep::StopLoop],
            },
            LockEvent::RequestLock => match state {
                LockLifecycle::Unlocked => {
                    if has_manager {
                        *self = LockLifecycle::Pending { teardown: None };
                        vec![LockStep::CreateLock]
                    } else {
                        vec![LockStep::Notify(LockNotice::LockDenied)]
                    }
                },
                _ => vec![LockStep::Warn],
            },
            LockEvent::RequestUnlock => match state {
                LockLifecycle::Locked => {
                    *self = LockLifecycle::Unlocked;
                    vec![LockStep::UnlockAndDestroy, LockStep::Flush, LockStep::RemoveLockUnits]
                },
                LockLifecycle::Pending { teardown } => {
                    let teardown = match teardown {
                        Some(goal) => Some(goal),
                        None => Some(LockTeardown::Unlock),
                    };
                    *self = LockLifecycle::Pending { teardown };
                    Vec::new()
                },
                LockLifecycle::Unlocked => Vec::new(),
            },
        }
    }
}

/// A lock object is given back exactly once: a transition that leaves a held
/// lock behind releases it once, together with the lock surfaces; a
/// transition that keeps or never had a lock releases none; and a lock is
/// created only on the way from no lock to a pending one.
pub proof fn lemma_lock_released_once(state: LockLifecycle, event: LockEvent, has_manager: bool)
    ensures
        ({
            let (next, steps) = lock_transition(state, event, has_manager);
            &&& holds_lock(state) && !holds_lock(next) ==> releases(steps) == 1
                && steps.contains(LockStep::RemoveLockUnits)
            &&& holds_lock(next) || !holds_lock(state) ==> releases(steps) == 0
            &&& steps.contains(LockStep::CreateLock) <==> (!holds_lock(state) && holds_lock(next))
        }),
{
    reveal_with_fuel(Seq::<_>::filter, 6);
    let (next, steps) = lock_transition(state, event, has_manager);
    assert(steps.contains(LockStep::RemoveLockUnits) || !(holds_lock(state) && !holds_lock(next)))
        by {
        if holds_lock(state) && !holds_lock(next) {
            assert(steps[1] == LockStep::RemoveLockUnits || steps[2] == LockStep::RemoveLockUnits);
        }
    }
    assert(steps.contains(LockStep::CreateLock) ==> (!holds_lock(state) && holds_lock(next))) by {
        if steps.contains(LockStep::CreateLock) {
            let k = choose|k: int| 0 <= k < steps.len() && steps[k] == LockStep::CreateLock;
        }
    }
    if !holds_lock(state) && holds_lock(next) {
        assert(steps[0] == LockStep::CreateLock);
    }
}

/// An exit requested while the compositor has not answered a lock request
/// yet is carried out when the answer comes, whichever it is.
pub proof fn lemma_exit_survives_pending_lock(teardown: Option<LockTeardown>, answer: LockEvent, has_manager: bool)
    requires
        answer == LockEvent::CompositorLocked || answer == LockEvent::CompositorFinished,
    ensures
        ({
            let (mid, first) = lock_transition(LockLifecycle::Pending { teardown }, LockEvent::RequestExit, has_manager);
            let (last, second) = lock_transition(mid, answer, has_manager);
            &&& first.len() == 0
            &&& last == LockLifecycle::Unlocked
            &&& second.contains(LockStep::StopLoop)
            &&& second.contains(LockStep::RemoveLockUnits)
        }),
{
    let (mid, first) = lock_transition(LockLifecycle::Pending { teardown }, LockEvent::RequestExit, has_manager);
    let (last, second) = lock_transition(mid, answer, has_manager);
    if answer == LockEvent::CompositorLocked {
        assert(second[3] == LockStep::StopLoop);
        assert(second[1] == LockStep::RemoveLockUnits);
    } else {
        assert(second[4] == LockStep::StopLoop);
        assert(second[2] == LockStep::RemoveLockUnits);
    }
}

/// An unlock requested while the lock is pending releases the lock once the
/// compositor confirms it, and the program keeps running.
pub proof fn lemma_unlock_survives_pending_lock(has_manager: bool)
    ensures
        ({
            let (mid, _) = lock_transition(LockLifecycle::Pending { teardown: None }, LockEvent::RequestUnlock, has_manager);
            let (last, steps) = lock_transition(mid, LockEvent::CompositorLocked, has_manager);
            &&& last == LockLifecycle::Unlocked
            &&& steps.contains(LockStep::UnlockAndDestroy)
            &&& !steps.contains(LockStep::StopLoop)
        }),
{
    let (mid, _) = lock_transition(LockLifecycle::Pending { teardown: None }, LockEvent::RequestUnlock, has_manager);
    let (last, steps) = lock_transition(mid, LockEvent::CompositorLocked, has_manager);
    assert(steps[0] == LockStep::UnlockAndDestroy);
}

/// A second lock request while a lock is pending or held changes nothing.
pub proof fn lemma_duplicate_lock_ignored(state: LockLifecycle, has_manager: bool)
    requires
        holds_lock(state),
    ensures
        lock_transition(state, LockEvent::RequestLock, has_manager) == (state, seq![LockStep::Warn]),
{
}

/// A lock the compositor confirmed is always given back unlocked: any
/// transition that leaves `Locked` unlocks and destroys the lock, never
/// destroys it alone, which would leave the session locked. Destroying
/// without unlocking happens only when the compositor refuses a pending
/// lock (`finished` before `locked`).
pub proof fn lemma_confirmed_lock_is_unlocked(state: LockLifecycle, event: LockEvent, has_manager: bool)
    ensures
        ({
            let (next, steps) = lock_transition(state, event, has_manager);
            &&& state is Locked && !(next is Locked) ==> steps.contains(LockStep::UnlockAndDestroy)
                && !steps.contains(LockStep::Destroy)
            &&& steps.contains(LockStep::Destroy) <==> (event == LockEvent::CompositorFinished
                && state is Pending)
        }),
{
    let (next, steps) = lock_transition(state, event, has_manager);
    if steps.contains(LockStep::Destroy) {
        let k = choose|k: int| 0 <= k < steps.len() && steps[k] == LockStep::Destroy;
    }
    if event == LockEvent::CompositorFinished && state is Pending {
        assert(steps[0] == LockStep::Destroy);
    }
    if state is Locked && !(next is Locked) {
        assert(steps[0] == LockStep::UnlockAndDestroy);
    }
}

/// An unlock request while the lock is held unlocks the session at once:
/// the lock is unlocked and destroyed and the lock surfaces dropped.
pub proof fn lemma_unlock_request_unlocks(has_manager: bool)
    ensures
        ({
            let (next, steps) = lock_transition(LockLifecycle::Locked, LockEvent::RequestUnlock, has_manager);
            &&& next == LockLifecycle::Unlocked
            &&& steps.contains(LockStep::UnlockAndDestroy)
            &&& steps.contains(LockStep::RemoveLockUnits)
            &&& !steps.contains(LockStep::Destroy)
            &&& !steps.contains(LockStep::StopLoop)
        }),
{
    lemma_confirmed_lock_is_unlocked(LockLifecycle::Locked, LockEvent::RequestUnlock, has_manager);
    let (next, steps) = lock_transition(LockLifecycle::Locked, LockEvent::RequestUnlock, has_manager);
    assert(steps[2] == LockStep::RemoveLockUnits);
    if steps.contains(LockStep::StopLoop) {
        let k = choose|k: int| 0 <= k < steps.len() && steps[k] == LockStep::StopLoop;
    }
}

/// What the program is told: `Locked` when the compositor confirms a lock
/// nobody asked to give up; `LockDenied` when it refuses a pending lock,
/// or a lock is asked for where there is no lock manager; `LockFinished`
/// when it ends a confirmed lock. The loop stops only on an exit: one
/// asked for with no lock pending, or one that waited for the
/// compositor's answer to a pending lock.
pub proof fn lemma_lock_notices(state: LockLifecycle, event: LockEvent, has_manager: bool)
    ensures
        ({
            let (next, steps) = lock_transition(state, event, has_manager);
            &&& steps.contains(LockStep::Notify(LockNotice::Locked)) <==> (event == LockEvent::CompositorLocked
                && state == LockLifecycle::Pending { teardown: None })
            &&& steps.contains(LockStep::Notify(LockNotice::LockDenied)) <==> ((event
                == LockEvent::CompositorFinished && state is Pending) || (event == LockEvent::RequestLock
                && state is Unlocked && !has_manager))
            &&& steps.contains(LockStep::Notify(LockNotice::LockFinished)) <==> (event
                == LockEvent::CompositorFinished && state is Locked)
            &&& steps.contains(LockStep::StopLoop) <==> ((event == LockEvent::RequestExit && !(state is Pending))
                || ((event == LockEvent::CompositorLocked || event == LockEvent::CompositorFinished)
                && state == LockLifecycle::Pending { teardown: Some(LockTeardown::Exit) }))
        }),
{
    let (next, steps) = lock_transition(state, event, has_manager);
    if event == LockEvent::CompositorLocked && state == (LockLifecycle::Pending { teardown: None }) {
        assert(steps[0] == LockStep::Notify(LockNotice::Locked));
    }
    if event == LockEvent::CompositorFinished && state is Pending {
        assert(steps[3] == LockStep::Notify(LockNotice::LockDenied));
    }
    if event == LockEvent::RequestLock && state is Unlocked && !has_manager {
        assert(steps[0] == LockStep::Notify(LockNotice::LockDenied));
    }
    if event == LockEvent::CompositorFinished && state is Locked {
        assert(steps[3] == LockStep::Notify(LockNotice::LockFinished));
    }
    if event == LockEvent::RequestExit && state is Locked {
        assert(steps[3] == LockStep::StopLoop);
    }
    if event == LockEvent::RequestExit && state is Unlocked {
        assert(steps[0] == LockStep::StopLoop);
    }
    if event == LockEvent::CompositorLocked && state == (LockLifecycle::Pending { teardown: Some(LockTeardown::Exit) }) {
        assert(steps[3] == LockStep::StopLoop);
    }
    if event == LockEvent::CompositorFinished && state == (LockLifecycle::Pending { teardown: Some(LockTeardown::Exit) }) {
        assert(steps[4] == LockStep::StopLoop);
    }
}

} // verus!
