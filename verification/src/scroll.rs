//! Scroll details that a widget toolkit's wheel event cannot carry: the
//! device, the timestamp, and the stop at the end of a finger gesture, so
//! that widgets can scroll on kinetically after the fingers are lifted.

use vstd::prelude::*;
use wayland_client::protocol::wl_pointer;

verus! {

/// The device that produced a scroll.
#[derive(Debug, Clone, Copy, PartialEq, Eq, Structural)]
pub enum Source {
    /// a mouse wheel: discrete steps
    Wheel,
    /// fingers on a touch surface such as a touchpad; scrolling ends with
    /// a stop
    Finger,
    /// continuous movement without a fixed step, e.g. a trackpoint
    Continuous,
    /// a sideways tilt of a mouse wheel
    WheelTilt,
}

/// The source that `wl_pointer.axis_source` names by wire value `raw`.
pub open spec fn source_of_wire(raw: u32) -> Option<Source> {
    match raw {
        0 => Some(Source::Wheel),
        1 => Some(Source::Finger),
        2 => Some(Source::Continuous),
        3 => Some(Source::WheelTilt),
        _ => None,
    }
}

/// `wl_pointer::AxisSource::try_from`, the conversion that the protocol
/// scanner generates from `wayland.xml`: wheel is 0, finger 1, continuous
/// 2, wheel tilt 3, and any other value is refused.
#[verifier::external_body]
fn axis_source_from_wire(raw: u32) -> (r: Option<Source>)
    ensures
        r == source_of_wire(raw),
{
    match wl_pointer::AxisSource::try_from(raw) {
        Ok(wl_pointer::AxisSource::Wheel) => Some(Source::Wheel),
        Ok(wl_pointer::AxisSource::Finger) => Some(Source::Finger),
        Ok(wl_pointer::AxisSource::Continuous) => Some(Source::Continuous),
        Ok(wl_pointer::AxisSource::WheelTilt) => Some(Source::WheelTilt),
        _ => None,
    }
}

impl Source {
    /// The source of a `wl_pointer.axis_source` event, by its wire value;
    /// `None` for a source this library does not know.
    pub fn from_wayland(source: u32) -> (r: Option<Source>)
        ensures
            r == source_of_wire(source),
    {
        axis_source_from_wire(source)
    }
}

/// A value per scroll axis.
#[derive(Debug, Default, Clone, Copy, PartialEq, Eq)]
pub struct Axes<T> {
    /// the horizontal axis
    pub x: T,
    /// the vertical axis
    pub y: T,
}

impl Axes<bool> {
    /// Whether the value is `true` on either axis.
    pub fn any(self) -> (r: bool)
        ensures
            r == (self.x || self.y),
    {
        self.x || self.y
    }
}

/// The scroll direction the compositor reports for an axis.
#[derive(Debug, Clone, Copy, PartialEq, Eq, Structural)]
pub enum RelativeDirection {
    /// the content moves with the fingers' direction reversed
    Identical,
    /// natural scrolling: the content follows the fingers
    Inverted,
}

/// What the scroll details read of one axis of a `wl_pointer.frame`.
#[derive(Debug, Clone, Copy, PartialEq, Eq, Structural)]
pub struct AxisDetail {
    /// the reported direction, `None` if the compositor did not report one
    pub relative_direction: Option<RelativeDirection>,
    /// the scroll was stopped: the fingers were lifted
    pub stop: bool,
}

/// One logical scroll event as reported by the compositor.
#[derive(Debug, Clone, Copy, PartialEq, Eq)]
pub struct Frame {
    /// compositor timestamp in milliseconds, `None` if the frame had none
    pub time: Option<u32>,
    /// the device that produced the scroll
    pub source: Option<Source>,
    /// the axes whose direction is inverted (natural scrolling)
    pub inverted: Axes<bool>,
}

/// Whether an axis scrolls inverted.
pub open spec fn is_inverted(axis: AxisDetail) -> bool {
    axis.relative_direction == Some(RelativeDirection::Inverted)
}

impl Frame {
    /// The frame of one `wl_pointer.frame`: its time, the source by wire
    /// value, and each axis's direction.
    pub fn new(time: Option<u32>, source: Option<u32>, horizontal: &AxisDetail, vertical: &AxisDetail) -> (r: Frame)
        ensures
            r.time == time,
            r.source == match source {
                Some(raw) => source_of_wire(raw),
                None => None,
            },
            r.inverted.x == is_inverted(*horizontal),
            r.inverted.y == is_inverted(*vertical),
    {
        let source = match source {
            Some(raw) => Source::from_wayland(raw),
            None => None,
        };
        Frame {
            time,
            source,
            inverted: Axes {
                x: horizontal.relative_direction == Some(RelativeDirection::Inverted),
                y: vertical.relative_direction == Some(RelativeDirection::Inverted),
            },
        }
    }
}

/// The end of a scroll gesture: the fingers were lifted off the device.
#[derive(Debug, Clone, Copy, PartialEq, Eq)]
pub struct Stop {
    /// compositor timestamp in milliseconds
    pub time: Option<u32>,
    /// the axes that stopped
    pub axes: Axes<bool>,
}

/// `later` merged into `earlier`: the later time where there is one, and
/// every axis that stopped in either.
pub open spec fn merged(earlier: Stop, later: Stop) -> Stop {
    Stop {
        time: if later.time is Some {
            later.time
        } else {
            earlier.time
        },
        axes: Axes { x: earlier.axes.x || later.axes.x, y: earlier.axes.y || later.axes.y },
    }
}

impl Stop {
    /// The stop of a frame, if either axis stopped.
    pub fn new(time: Option<u32>, horizontal: &AxisDetail, vertical: &AxisDetail) -> (r: Option<Stop>)
        ensures
            r == if horizontal.stop || vertical.stop {
                Some(Stop { time, axes: Axes { x: horizontal.stop, y: vertical.stop } })
            } else {
                None
            },
    {
        let axes = Axes { x: horizontal.stop, y: vertical.stop };
        if axes.any() {
            Some(Stop { time, axes })
        } else {
            None
        }
    }

    /// `later` merged into this stop.
    pub fn merge(self, later: Stop) -> (r: Stop)
        ensures
            r == merged(self, later),
    {
        Stop {
            time: match later.time {
                Some(t) => Some(t),
                None => self.time,
            },
            axes: Axes { x: self.axes.x || later.axes.x, y: self.axes.y || later.axes.y },
        }
    }
}

/// Merging stops does not depend on how they are grouped.
pub proof fn lemma_merge_associative(a: Stop, b: Stop, c: Stop)
    ensures
        merged(merged(a, b), c) == merged(a, merged(b, c)),
{
}

/// Receives the stops of the scroll gestures its widget owns.
#[derive(Debug)]
pub struct StopReceiver {
    /// the owner id the receiver was given
    pub owner: u64,
    /// the stop delivered since the last take, merged
    pub stop: Option<Stop>,
}

/// The scroll state that the handling of one wheel event shares: the
/// frame being handled, the receiver that claimed its gesture, and the
/// next owner id to hand out.
#[derive(Debug)]
pub struct ScrollContext {
    /// the frame of the wheel event being handled
    pub current: Option<Frame>,
    /// the owner that claimed the gesture of that event
    pub claim: Option<u64>,
    /// the owner id the next receiver gets
    pub next_owner: u64,
}

impl ScrollContext {
    /// No frame being handled, and owner ids from zero.
    pub fn new() -> (r: ScrollContext)
        ensures
            r.current is None,
            r.claim is None,
            r.next_owner == 0,
    {
        ScrollContext { current: None, claim: None, next_owner: 0 }
    }
}

impl StopReceiver {
    /// A receiver with no pending stop and the next owner id, which is
    /// then used up (ids wrap around after the last one).
    pub fn new(context: &mut ScrollContext) -> (r: StopReceiver)
        ensures
            r.owner == old(context).next_owner,
            r.stop is None,
            final(context).next_owner == (if old(context).next_owner == u64::MAX {
                0
            } else {
                (old(context).next_owner + 1) as u64
            }),
            final(context).current == old(context).current,
            final(context).claim == old(context).claim,
    {
        let owner = context.next_owner;
        context.next_owner = owner.wrapping_add(1);
        StopReceiver { owner, stop: None }
    }

    /// Claims the gesture of the wheel event being handled. `false`, and
    /// nothing claimed, when no wheel event is being handled.
    pub fn claim(&self, context: &mut ScrollContext) -> (r: bool)
        ensures
            r == old(context).current is Some,
            *final(context) == claimed(*old(context), self.owner),
    {
        let claimed = context.current.is_some();
        if claimed {
            context.claim = Some(self.owner);
        }
        claimed
    }

    /// Takes the stop delivered since the last call; stops delivered in
    /// between are merged.
    pub fn take_stop(&mut self) -> (r: Option<Stop>)
        ensures
            r == old(self).stop,
            final(self).stop is None,
            final(self).owner == old(self).owner,
    {
        self.stop.take()
    }
}

/// Delivers a stop to the receiver of its owner.
#[derive(Debug)]
pub struct DeliverStop {
    /// the owner the stop is for
    pub owner: u64,
    /// the stop
    pub stop: Stop,
    /// the owner's receiver was found
    pub delivered: bool,
}

impl DeliverStop {
    /// A delivery of `stop` to `owner`, not yet made.
    pub fn new(owner: u64, stop: Stop) -> (r: DeliverStop)
        ensures
            r.owner == owner,
            r.stop == stop,
            !r.delivered,
    {
        DeliverStop { owner, stop, delivered: false }
    }

    /// Whether the owner was found.
    pub fn delivered(&self) -> (r: bool)
        ensures
            r == self.delivered,
    {
        self.delivered
    }

    /// Whether the widget tree still needs to be walked: until the owner
    /// is found.
    pub fn traverse(&self) -> (r: bool)
        ensures
            r == !self.delivered,
    {
        !self.delivered
    }

    /// Offers the delivery to a receiver met on the walk: the owner's
    /// receiver takes the stop, merged after one it has not taken yet.
    pub fn offer(&mut self, receiver: &mut StopReceiver)
        ensures
            final(self).owner == old(self).owner,
            final(self).stop == old(self).stop,
            final(receiver).owner == old(receiver).owner,
            old(receiver).owner == old(self).owner ==> final(self).delivered && final(receiver).stop
                == received(old(receiver).stop, old(self).stop),
            old(receiver).owner != old(self).owner ==> final(self).delivered == old(self).delivered
                && final(receiver).stop == old(receiver).stop,
    {
        if receiver.owner == self.owner {
            receiver.stop = Some(match receiver.stop {
                Some(earlier) => earlier.merge(self.stop),
                None => self.stop,
            });
            self.delivered = true;
        }
    }
}

/// The frame of the wheel event being handled right now.
pub fn current(context: &ScrollContext) -> (r: Option<Frame>)
    ensures
        r == context.current,
{
    context.current
}

/// What [`begin_current`] put aside, for [`end_current`] to put back.
#[derive(Debug)]
pub struct SavedScroll {
    /// the frame that was current before
    pub frame: Option<Frame>,
    /// the claim made before
    pub claim: Option<u64>,
}

/// Makes `frame` the frame being handled, with nothing claimed yet, and
/// returns what was there before.
pub fn begin_current(context: &mut ScrollContext, frame: Option<Frame>) -> (r: SavedScroll)
    ensures
        r == put_aside(*old(context)),
        *final(context) == begun(*old(context), frame),
{
    let saved = SavedScroll { frame: context.current, claim: context.claim };
    context.current = frame;
    context.claim = None;
    saved
}

/// Ends the handling begun by [`begin_current`]: puts back what was there
/// before and returns the owner that claimed the frame meanwhile.
pub fn end_current(context: &mut ScrollContext, saved: SavedScroll) -> (r: Option<u64>)
    ensures
        r == old(context).claim,
        *final(context) == ended(*old(context), saved),
{
    let claim = context.claim;
    context.current = saved.frame;
    context.claim = saved.claim;
    claim
}

/// Runs `f` with `frame` as the frame being handled and nothing claimed
/// yet: `f` gets the context so changed, once, and gives it back with
/// its result. Afterwards the frame and claim that were there before are
/// back; the owner ids `f` handed out stay used. Returns `f`'s result
/// and the owner that claimed the frame while `f` ran: when `f` claims
/// and nests handlings as `steps`, [`lemma_scope_nesting`] says that this
/// is the last claim at its own level.
pub fn with_current<R, F: FnOnce(ScrollContext) -> (R, ScrollContext)>(
    context: &mut ScrollContext,
    frame: Option<Frame>,
    f: F,
) -> (r: (R, Option<u64>))
    requires
        f.requires((begun(*old(context), frame),)),
    ensures
        exists|inner: ScrollContext|
            {
                &&& #[trigger] f.ensures((begun(*old(context), frame),), (r.0, inner))
                &&& r.1 == inner.claim
                &&& *final(context) == ended(inner, put_aside(*old(context)))
            },
{
    let saved = SavedScroll { frame: context.current, claim: context.claim };
    let start = ScrollContext { current: frame, claim: None, next_owner: context.next_owner };
    assert(start == begun(*old(context), frame));
    let out = f(start);
    let (result, mut inner) = out;
    let ghost handed_back = inner;
    let claim = end_current(&mut inner, saved);
    *context = inner;
    proof {
        assert(f.ensures((begun(*old(context), frame),), (result, handed_back)));
        assert(exists|w: ScrollContext|
            #[trigger] f.ensures((begun(*old(context), frame),), (result, w)) && claim == w.claim);
    }
    let r = (result, claim);
    assert(r.0 == result);
    r
}

/// The context after [`begin_current`] with `frame`.
pub open spec fn begun(c: ScrollContext, frame: Option<Frame>) -> ScrollContext {
    ScrollContext { current: frame, claim: None, ..c }
}

/// What [`begin_current`] puts aside of `c`.
pub open spec fn put_aside(c: ScrollContext) -> SavedScroll {
    SavedScroll { frame: c.current, claim: c.claim }
}

/// The context after a receiver of `owner` claims.
pub open spec fn claimed(c: ScrollContext, owner: u64) -> ScrollContext {
    if c.current is Some {
        ScrollContext { claim: Some(owner), ..c }
    } else {
        c
    }
}

/// The context after [`end_current`] with `saved`.
pub open spec fn ended(c: ScrollContext, saved: SavedScroll) -> ScrollContext {
    ScrollContext { current: saved.frame, claim: saved.claim, ..c }
}

/// A receiver that claims while a frame is handled is the owner handed
/// back when the handling ends, and the frame and claim that were there
/// before are back afterwards.
pub proof fn lemma_claim_reaches_owner(c: ScrollContext, frame: Frame, owner: u64)
    ensures
        claimed(begun(c, Some(frame)), owner).claim == Some(owner),
        ended(claimed(begun(c, Some(frame)), owner), put_aside(c)) == c,
{
}

/// Outside the handling of a wheel event nothing can be claimed.
pub proof fn lemma_no_claim_outside_frame(c: ScrollContext, owner: u64)
    requires
        c.current is None,
    ensures
        claimed(c, owner) == c,
{
}

/// The pending stop of a receiver after a stop for it was delivered.
pub open spec fn received(pending: Option<Stop>, stop: Stop) -> Option<Stop> {
    Some(
        match pending {
            Some(earlier) => merged(earlier, stop),
            None => stop,
        },
    )
}

/// Stops delivered to a receiver before it takes them come out as one,
/// merged in delivery order, however they were grouped.
pub proof fn lemma_deliveries_merge(a: Stop, b: Stop, c: Stop)
    ensures
        received(received(None, a), b) == Some(merged(a, b)),
        received(received(received(None, a), b), c) == Some(merged(a, merged(b, c))),
{
    lemma_merge_associative(a, b, c);
}

/// The pending stop of a receiver that had `pending` and was then
/// delivered `stops`, in that order.
pub open spec fn after_deliveries(pending: Option<Stop>, stops: Seq<Stop>) -> Option<Stop>
    decreases stops.len(),
{
    if stops.len() == 0 {
        pending
    } else {
        received(after_deliveries(pending, stops.drop_last()), stops.last())
    }
}

/// The time of the latest of `stops` that has one.
pub open spec fn latest_time(stops: Seq<Stop>) -> Option<u32>
    decreases stops.len(),
{
    if stops.len() == 0 {
        None
    } else if stops.last().time is Some {
        stops.last().time
    } else {
        latest_time(stops.drop_last())
    }
}

/// Whether some of `stops` stopped the horizontal axis.
pub open spec fn any_stopped_x(stops: Seq<Stop>) -> bool {
    exists|i: int| 0 <= i < stops.len() && (#[trigger] stops[i]).axes.x
}

/// Whether some of `stops` stopped the vertical axis.
pub open spec fn any_stopped_y(stops: Seq<Stop>) -> bool {
    exists|i: int| 0 <= i < stops.len() && (#[trigger] stops[i]).axes.y
}

/// Stops delivered to a receiver one after another, from the time it was
/// made or last took its stop, are taken as one: none if none was
/// delivered, else a stop with the time of the latest that had one and
/// every axis that any of them stopped. The take leaves nothing pending,
/// so a second take right after gives none.
pub proof fn lemma_deliveries_then_take(stops: Seq<Stop>)
    ensures
        after_deliveries(None, stops) == (if stops.len() == 0 {
            None
        } else {
            Some(
                Stop {
                    time: latest_time(stops),
                    axes: Axes { x: any_stopped_x(stops), y: any_stopped_y(stops) },
                },
            )
        }),
    decreases stops.len(),
{
    if stops.len() > 0 {
        let rest = stops.drop_last();
        let last = stops.last();
        lemma_deliveries_then_take(rest);
        assert(stops[stops.len() - 1] == last);
        assert(forall|i: int| 0 <= i < rest.len() ==> #[trigger] rest[i] == stops[i]);
        if any_stopped_x(rest) {
            let i = choose|i: int| 0 <= i < rest.len() && (#[trigger] rest[i]).axes.x;
            assert(stops[i].axes.x);
        }
        if any_stopped_y(rest) {
            let i = choose|i: int| 0 <= i < rest.len() && (#[trigger] rest[i]).axes.y;
            assert(stops[i].axes.y);
        }
        if any_stopped_x(stops) {
            let i = choose|i: int| 0 <= i < stops.len() && (#[trigger] stops[i]).axes.x;
            if i < rest.len() {
                assert(rest[i].axes.x);
            }
        }
        if any_stopped_y(stops) {
            let i = choose|i: int| 0 <= i < stops.len() && (#[trigger] stops[i]).axes.y;
            if i < rest.len() {
                assert(rest[i].axes.y);
            }
        }
    }
}

/// What the code run while a frame is handled does at its own level: a
/// receiver claims, or the handling of another frame is nested inside,
/// with steps of its own.
pub enum ScopeStep {
    /// a receiver of this owner claims
    Claim(u64),
    /// [`begin_current`] with this frame, these steps, then [`end_current`]
    Nested(Option<Frame>, Seq<ScopeStep>),
}

/// The context after `steps`, starting from `c`.
pub open spec fn run_steps(c: ScrollContext, steps: Seq<ScopeStep>) -> ScrollContext
    decreases steps,
{
    if steps.len() == 0 {
        c
    } else {
        let before = run_steps(c, steps.drop_last());
        match steps.last() {
            ScopeStep::Claim(owner) => claimed(before, owner),
            ScopeStep::Nested(frame, inner) => {
                proof {
                    assert(decreases_to!(steps => steps[steps.len() - 1]));
                }
                ended(run_steps(begun(before, frame), inner), put_aside(before))
            },
        }
    }
}

/// The owner of the last claim among `steps` at their own level; claims
/// inside nested handlings do not count.
pub open spec fn last_claim(steps: Seq<ScopeStep>) -> Option<u64>
    decreases steps.len(),
{
    if steps.len() == 0 {
        None
    } else {
        match steps.last() {
            ScopeStep::Claim(owner) => Some(owner),
            ScopeStep::Nested(..) => last_claim(steps.drop_last()),
        }
    }
}

/// Steps keep the frame being handled and the owner ids, and leave the
/// claim of their last claim at their level, if a frame is handled and
/// they claimed at all.
pub proof fn lemma_run_steps(c: ScrollContext, steps: Seq<ScopeStep>)
    ensures
        run_steps(c, steps).current == c.current,
        run_steps(c, steps).next_owner == c.next_owner,
        run_steps(c, steps).claim == (if c.current is Some && last_claim(steps) is Some {
            last_claim(steps)
        } else {
            c.claim
        }),
    decreases steps,
{
    if steps.len() > 0 {
        lemma_run_steps(c, steps.drop_last());
        let before = run_steps(c, steps.drop_last());
        match steps.last() {
            ScopeStep::Claim(owner) => {},
            ScopeStep::Nested(frame, inner) => {
                assert(decreases_to!(steps => steps[steps.len() - 1]));
                lemma_run_steps(begun(before, frame), inner);
            },
        }
    }
}

/// Handling a frame: [`begin_current`] with `frame`, then `steps`, then
/// [`end_current`]. While the steps run, the frame is current; the owner
/// that [`end_current`] hands back is that of the last claim made at this
/// level while a frame was handled (claims inside nested handlings do not
/// leak out), none if there was none; and afterwards the frame and claim
/// that were there before are back.
pub proof fn lemma_scope_nesting(c: ScrollContext, frame: Option<Frame>, steps: Seq<ScopeStep>)
    ensures
        run_steps(begun(c, frame), steps).current == frame,
        run_steps(begun(c, frame), steps).claim == (if frame is Some {
            last_claim(steps)
        } else {
            None
        }),
        ended(run_steps(begun(c, frame), steps), put_aside(c)) == c,
{
    lemma_run_steps(begun(c, frame), steps);
}

} // verus!
