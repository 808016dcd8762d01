//! Redraw requests and the present slot of a surface.
//!
//! A surface asks to be redrawn on the next frame, at an instant, or not at
//! all; several requests fold into the nearest one. A surface may present a
//! frame only after its first configure and when the compositor is ready for
//! one: presenting takes the slot, a frame callback gives it back.
//!
//! Instants and durations are counted in ticks of one monotonic clock.

use vstd::prelude::*;
use crate::units::WlShellType;

verus! {

/// When a surface wants to be redrawn.
#[derive(Debug, Clone, Copy, PartialEq, Eq, Structural)]
pub enum RefreshRequest {
    /// Redraw the next frame.
    NextFrame,
    /// Redraw at the given instant.
    At(u64),
    /// No redraw is needed.
    Wait,
}

impl Default for RefreshRequest {
    fn default() -> (r: Self)
        ensures
            r == RefreshRequest::Wait,
    {
        RefreshRequest::Wait
    }
}

/// Whether a surface may present now.
#[derive(Debug, Clone, Copy, PartialEq, Eq, Structural)]
pub enum PresentAvailableState {
    /// A `wl_surface.frame` request has been sent and its callback has not come.
    Requested,
    /// A good time to draw a new frame; also the state before the first present.
    Available,
    /// The slot has been taken by a present in progress.
    Taken,
}

impl Default for PresentAvailableState {
    fn default() -> (r: Self)
        ensures
            r == PresentAvailableState::Available,
    {
        PresentAvailableState::Available
    }
}

/// The order of urgency: the next frame first, then instants in time order,
/// then waiting.
pub open spec fn refresh_le(a: RefreshRequest, b: RefreshRequest) -> bool {
    match (a, b) {
        (RefreshRequest::NextFrame, _) => true,
        (RefreshRequest::At(x), RefreshRequest::At(y)) => x <= y,
        (RefreshRequest::At(_), RefreshRequest::Wait) => true,
        (RefreshRequest::Wait, RefreshRequest::Wait) => true,
        _ => false,
    }
}

/// The more urgent of two requests.
pub open spec fn earliest(a: RefreshRequest, b: RefreshRequest) -> RefreshRequest {
    if refresh_le(a, b) {
        a
    } else {
        b
    }
}

/// The more urgent of two redraw requests.
pub fn earliest_request(a: RefreshRequest, b: RefreshRequest) -> (r: RefreshRequest)
    ensures
        r == earliest(a, b),
{
    match a {
        RefreshRequest::NextFrame => a,
        RefreshRequest::At(x) => match b {
            RefreshRequest::NextFrame => b,
            RefreshRequest::At(y) => if y < x {
                b
            } else {
                a
            },
            RefreshRequest::Wait => a,
        },
        RefreshRequest::Wait => b,
    }
}

/// The redraw bookkeeping of one surface.
#[derive(Debug, Clone, Copy, PartialEq, Eq)]
pub struct PresentSchedule {
    /// The compositor has sent the first configure of the surface.
    pub configured: bool,
    /// The pending redraw request.
    pub refresh: RefreshRequest,
    /// Whether a present may start.
    pub present: PresentAvailableState,
}

/// The duration until the surface needs its next redraw, when it can be
/// served; see [`PresentSchedule::refresh_timeout`].
pub open spec fn spec_refresh_timeout(s: PresentSchedule, now: u64) -> Option<u64> {
    if !s.configured {
        None
    } else {
        match s.refresh {
            RefreshRequest::NextFrame => if s.present == PresentAvailableState::Available {
                Some(0u64)
            } else {
                None
            },
            RefreshRequest::At(t) => {
                let timeout: u64 = if t > now {
                    (t - now) as u64
                } else {
                    0u64
                };
                if timeout == 0 && s.present != PresentAvailableState::Available {
                    None
                } else {
                    Some(timeout)
                }
            },
            RefreshRequest::Wait => None,
        }
    }
}

/// Whether the pending request is due at `now`.
pub open spec fn spec_should_refresh(s: PresentSchedule, now: u64) -> bool {
    match s.refresh {
        RefreshRequest::NextFrame => true,
        RefreshRequest::At(t) => t <= now,
        RefreshRequest::Wait => false,
    }
}

/// Whether a present may start at `now`.
pub open spec fn can_take_slot(s: PresentSchedule, now: u64) -> bool {
    s.configured && spec_should_refresh(s, now) && s.present == PresentAvailableState::Available
}

/// The schedule after a present took the slot: the request is served.
pub open spec fn slot_taken(s: PresentSchedule) -> PresentSchedule {
    PresentSchedule { refresh: RefreshRequest::Wait, present: PresentAvailableState::Taken, ..s }
}

/// The schedule after a present that took the slot asked for a frame
/// callback.
pub open spec fn frame_requested(s: PresentSchedule) -> PresentSchedule {
    if s.present == PresentAvailableState::Taken {
        PresentSchedule { present: PresentAvailableState::Requested, ..s }
    } else {
        s
    }
}

/// The schedule after the frame callback arrived.
pub open spec fn frame_arrived(s: PresentSchedule) -> PresentSchedule {
    PresentSchedule { present: PresentAvailableState::Available, ..s }
}

/// The schedule after a redraw request.
pub open spec fn refresh_requested(s: PresentSchedule, request: RefreshRequest) -> PresentSchedule {
    PresentSchedule { refresh: earliest(s.refresh, request), ..s }
}

impl PresentSchedule {
    /// The state of a new surface of role `shell`: an input panel gets no
    /// configure, so it counts as configured from the start.
    pub fn for_shell(shell: WlShellType) -> (r: Self)
        ensures
            r.configured == (shell == WlShellType::InputPanel),
            r.refresh == RefreshRequest::Wait,
            r.present == PresentAvailableState::Available,
    {
        PresentSchedule {
            configured: shell == WlShellType::InputPanel,
            refresh: RefreshRequest::Wait,
            present: PresentAvailableState::Available,
        }
    }

    /// The state of a surface that has just been created.
    pub fn new() -> (r: Self)
        ensures
            !r.configured,
            r.refresh == RefreshRequest::Wait,
            r.present == PresentAvailableState::Available,
    {
        PresentSchedule {
            configured: false,
            refresh: RefreshRequest::Wait,
            present: PresentAvailableState::Available,
        }
    }

    /// Records a redraw request; the most urgent of the pending one and the
    /// new one wins.
    pub fn request_refresh(&mut self, request: RefreshRequest)
        ensures
            *final(self) == refresh_requested(*old(self), request),
    {
        self.refresh = earliest_request(self.refresh, request);
    }

    /// The compositor configured the surface: it may be drawn, and is to be
    /// drawn on the next frame.
    pub fn configure(&mut self)
        ensures
            final(self).configured,
            final(self).refresh == RefreshRequest::NextFrame,
            final(self).present == old(self).present,
    {
        self.configured = true;
        self.request_refresh(RefreshRequest::NextFrame);
    }

    /// The duration until this surface needs its next refresh, or `None` if
    /// no refresh is pending, the surface has not been configured yet, or the
    /// present slot is unavailable (a frame callback is awaited).
    pub fn refresh_timeout(&self, now: u64) -> (r: Option<u64>)
        ensures
            r == spec_refresh_timeout(*self, now),
    {
        if !self.configured {
            return None;
        }
        match self.refresh {
            RefreshRequest::NextFrame => {
                if self.present == PresentAvailableState::Available {
                    Some(0)
                } else {
                    None
                }
            },
            RefreshRequest::At(instant) => {
                let timeout: u64 = if instant > now {
                    instant - now
                } else {
                    0
                };
                if timeout == 0 && self.present != PresentAvailableState::Available {
                    None
                } else {
                    Some(timeout)
                }
            },
            RefreshRequest::Wait => None,
        }
    }

    /// Whether the pending request is due at `now`.
    pub fn should_refresh(&self, now: u64) -> (r: bool)
        ensures
            r == spec_should_refresh(*self, now),
    {
        match self.refresh {
            RefreshRequest::NextFrame => true,
            RefreshRequest::At(instant) => instant <= now,
            RefreshRequest::Wait => false,
        }
    }

    /// Takes the present slot when a due redraw may be presented; the request
    /// is then served.
    pub fn take_present_slot(&mut self, now: u64) -> (taken: bool)
        ensures
            taken == can_take_slot(*old(self), now),
            taken ==> *final(self) == slot_taken(*old(self)),
            !taken ==> *final(self) == *old(self),
    {
        if !self.configured || !self.should_refresh(now) {
            return false;
        }
        if self.present != PresentAvailableState::Available {
            return false;
        }
        self.refresh = RefreshRequest::Wait;
        self.present = PresentAvailableState::Taken;
        true
    }

    /// Gives a taken slot back, as when a present failed.
    pub fn reset_present_slot(&mut self) -> (reset: bool)
        ensures
            reset == (old(self).present == PresentAvailableState::Taken),
            final(self).present == (if reset {
                PresentAvailableState::Available
            } else {
                old(self).present
            }),
            final(self).configured == old(self).configured,
            final(self).refresh == old(self).refresh,
    {
        if self.present == PresentAvailableState::Taken {
            self.present = PresentAvailableState::Available;
            true
        } else {
            false
        }
    }

    /// After a present: when the slot was taken, a frame callback is to be
    /// requested (returns `true`) and the slot waits for it.
    pub fn request_next_present(&mut self) -> (request_frame: bool)
        ensures
            request_frame == (old(self).present == PresentAvailableState::Taken),
            *final(self) == frame_requested(*old(self)),
    {
        match self.present {
            PresentAvailableState::Taken => {
                self.present = PresentAvailableState::Requested;
                true
            },
            PresentAvailableState::Requested | PresentAvailableState::Available => false,
        }
    }

    /// The frame callback arrived: a new frame may be drawn.
    pub fn frame_done(&mut self)
        ensures
            *final(self) == frame_arrived(*old(self)),
    {
        self.present = PresentAvailableState::Available;
    }
}

/// Whether the event loop presents a surface of `width` by `height` now:
/// a surface without a size yet is skipped; otherwise it presents when it
/// can take its present slot, which it then takes.
pub fn try_present(width: u32, height: u32, schedule: &mut PresentSchedule, now: u64) -> (r: bool)
    ensures
        r == (width != 0 && height != 0 && can_take_slot(*old(schedule), now)),
        *final(schedule) == (if r {
            slot_taken(*old(schedule))
        } else {
            *old(schedule)
        }),
{
    if width == 0 || height == 0 {
        return false;
    }
    schedule.take_present_slot(now)
}

/// The minimum dispatch timeout across all surfaces: `None` when no surface
/// has a redraw that can be served, so the loop may sleep until an outside
/// event arrives.
pub fn min_dispatch_timeout(units: &[PresentSchedule], now: u64) -> (r: Option<u64>)
    ensures
        r is None <==> forall|i: int|
            0 <= i < units@.len() ==> spec_refresh_timeout(#[trigger] units@[i], now) is None,
        r matches Some(m) ==> (exists|i: int|
            0 <= i < units@.len() && spec_refresh_timeout(#[trigger] units@[i], now) == Some(m)),
        r matches Some(m) ==> forall|i: int|
            0 <= i < units@.len() && spec_refresh_timeout(#[trigger] units@[i], now) is Some ==> m
                <= spec_refresh_timeout(units@[i], now)->0,
{
    let mut min: Option<u64> = None;
    let mut i: usize = 0;
    while i < units.len()
        invariant
            0 <= i <= units@.len(),
            min is None <==> forall|j: int|
                0 <= j < i ==> spec_refresh_timeout(#[trigger] units@[j], now) is None,
            min matches Some(m) ==> (exists|j: int|
                0 <= j < i && spec_refresh_timeout(#[trigger] units@[j], now) == Some(m)),
            min matches Some(m) ==> forall|j: int|
                0 <= j < i && spec_refresh_timeout(#[trigger] units@[j], now) is Some ==> m
                    <= spec_refresh_timeout(units@[j], now)->0,
        decreases units@.len() - i,
    {
        let t = units[i].refresh_timeout(now);
        match t {
            Some(d) => {
                if d == 0 {
                    assert(spec_refresh_timeout(units@[i as int], now) == Some(0u64));
                    return Some(0);
                }
                min = match min {
                    Some(m) => if d < m {
                        Some(d)
                    } else {
                        Some(m)
                    },
                    None => Some(d),
                };
            },
            None => {},
        }
        i += 1;
    }
    min
}

/// Folding redraw requests does not depend on their order, and a request
/// folded twice counts once.
pub proof fn lemma_refresh_requests_commute(a: RefreshRequest, b: RefreshRequest, c: RefreshRequest)
    ensures
        earliest(a, b) == earliest(b, a),
        earliest(earliest(a, b), c) == earliest(a, earliest(b, c)),
        earliest(a, a) == a,
        refresh_le(earliest(a, b), a) && refresh_le(earliest(a, b), b),
{
}

/// When the loop is told not to sleep at all for a surface, that surface can
/// take its present slot right away; when told to sleep `d > 0` ticks, the
/// redraw becomes due exactly then.
pub proof fn lemma_timeout_matches_slot(s: PresentSchedule, now: u64)
    ensures
        spec_refresh_timeout(s, now) == Some(0u64) ==> can_take_slot(s, now),
        spec_refresh_timeout(s, now) matches Some(d) ==> (d > 0 ==> s.refresh
            == RefreshRequest::At((now + d) as u64) && !spec_should_refresh(s, now)),
{
}

/// A configured surface whose present slot is free never lets the loop
/// sleep past its pending redraw: the loop is told to wake at once exactly
/// when the redraw is due, and for a timed redraw not yet due, to wake
/// exactly when it becomes due. With the slot free, a pending redraw is
/// never reported as none.
pub proof fn lemma_free_slot_wakes_loop(s: PresentSchedule, now: u64)
    requires
        s.configured,
        s.present == PresentAvailableState::Available,
    ensures
        spec_refresh_timeout(s, now) == Some(0u64) <==> spec_should_refresh(s, now),
        spec_refresh_timeout(s, now) is None <==> s.refresh == RefreshRequest::Wait,
        s.refresh matches RefreshRequest::At(t) ==> spec_refresh_timeout(s, now) == Some(
            (if t > now { t - now } else { 0 }) as u64,
        ),
{
}

/// The loop is told to wake at once exactly when a present may start; a
/// surface not yet configured, or with no redraw pending, never wakes it.
pub proof fn lemma_due_redraw_wakes_at_once(s: PresentSchedule, now: u64)
    ensures
        can_take_slot(s, now) <==> spec_refresh_timeout(s, now) == Some(0u64),
        !s.configured || s.refresh == RefreshRequest::Wait ==> spec_refresh_timeout(s, now) is None,
{
}

/// The present cycle: once a present took the slot and asked for a frame
/// callback, no present starts, whatever is requested meanwhile, until the
/// callback arrives; then the next due redraw may present again.
pub proof fn lemma_present_cycle(s: PresentSchedule, now: u64, request: RefreshRequest, later: u64)
    requires
        can_take_slot(s, now),
    ensures
        ({
            let waiting = refresh_requested(frame_requested(slot_taken(s)), request);
            &&& !can_take_slot(slot_taken(s), later)
            &&& !can_take_slot(waiting, later)
            &&& spec_refresh_timeout(waiting, later) != Some(0u64)
            &&& can_take_slot(frame_arrived(waiting), later) == spec_should_refresh(
                refresh_requested(slot_taken(s), request),
                later,
            )
        }),
{
}

} // verus!
