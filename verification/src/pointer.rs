//! Pointer events between two `wl_pointer.frame` events belong together:
//! they are held, the axis events folded into one scroll, and all of them
//! handed on in the order they came once the frame ends.

use vstd::prelude::*;
use wayland_client::protocol::wl_pointer;
use crate::scroll::{RelativeDirection, Source, source_of_wire};

verus! {

/// A scroll axis of `wl_pointer`.
#[derive(Debug, Clone, Copy, PartialEq, Eq, Structural)]
pub enum AxisSide {
    Vertical,
    Horizontal,
}

/// The axis that wire value `raw` names in `wayland.xml`.
pub open spec fn side_of_wire(raw: u32) -> Option<AxisSide> {
    match raw {
        0 => Some(AxisSide::Vertical),
        1 => Some(AxisSide::Horizontal),
        _ => None,
    }
}

/// `wl_pointer::Axis::try_from`, generated from `wayland.xml`: the
/// vertical scroll axis is 0, the horizontal one 1, any other value is
/// refused.
#[verifier::external_body]
fn axis_side_from_wire(raw: u32) -> (r: Option<AxisSide>)
    ensures
        r == side_of_wire(raw),
{
    match wl_pointer::Axis::try_from(raw) {
        Ok(wl_pointer::Axis::VerticalScroll) => Some(AxisSide::Vertical),
        Ok(wl_pointer::Axis::HorizontalScroll) => Some(AxisSide::Horizontal),
        _ => None,
    }
}

/// The direction that wire value `raw` names in `wayland.xml`.
pub open spec fn direction_of_wire(raw: u32) -> Option<RelativeDirection> {
    match raw {
        0 => Some(RelativeDirection::Identical),
        1 => Some(RelativeDirection::Inverted),
        _ => None,
    }
}

/// `wl_pointer::AxisRelativeDirection::try_from`, generated from
/// `wayland.xml`: identical is 0, inverted 1, any other value is refused.
#[verifier::external_body]
fn direction_from_wire(raw: u32) -> (r: Option<RelativeDirection>)
    ensures
        r == direction_of_wire(raw),
{
    match wl_pointer::AxisRelativeDirection::try_from(raw) {
        Ok(wl_pointer::AxisRelativeDirection::Identical) => Some(RelativeDirection::Identical),
        Ok(wl_pointer::AxisRelativeDirection::Inverted) => Some(RelativeDirection::Inverted),
        _ => None,
    }
}

/// What one axis gathered within a frame, but for the scroll distance,
/// which its holder adds up as the events come.
#[derive(Debug, Clone, Copy, PartialEq, Eq, Structural)]
pub struct AxisCounts {
    /// high-resolution wheel steps, 120 to a step
    pub value120: i32,
    /// wheel steps
    pub discrete: i32,
    /// the reported direction
    pub relative_direction: Option<RelativeDirection>,
    /// the scroll was stopped
    pub stop: bool,
}

/// The axis events of one frame, folded, but for the scroll distances.
#[derive(Debug, Clone, Copy, PartialEq, Eq, Structural)]
pub struct AxisTally {
    /// the time of the first timed axis event
    pub time: Option<u32>,
    pub horizontal: AxisCounts,
    pub vertical: AxisCounts,
    /// the device, as `wl_pointer.axis_source` named it
    pub source: Option<Source>,
}

/// An axis event of `wl_pointer`, with enum arguments by wire value; the
/// scroll distance of `wl_pointer.axis` stays with the caller.
#[derive(Debug, Clone, Copy, PartialEq, Eq, Structural)]
pub enum AxisSignal {
    Axis { time: u32, axis: u32 },
    AxisStop { time: u32, axis: u32 },
    AxisValue120 { axis: u32, value120: i32 },
    AxisDiscrete { axis: u32, discrete: i32 },
    AxisRelativeDirection { axis: u32, direction: u32 },
    AxisSource { source: u32 },
}

/// Nothing counted.
pub open spec fn no_counts() -> AxisCounts {
    AxisCounts { value120: 0, discrete: 0, relative_direction: None, stop: false }
}

/// Counts after one axis event.
pub open spec fn counts_next(c: AxisCounts, e: AxisSignal) -> AxisCounts {
    match e {
        AxisSignal::AxisStop { .. } => AxisCounts { stop: true, ..c },
        AxisSignal::AxisValue120 { value120, .. } => AxisCounts { value120: (c.value120 + value120) as i32, ..c },
        AxisSignal::AxisDiscrete { discrete, .. } => AxisCounts { discrete: (c.discrete + discrete) as i32, ..c },
        AxisSignal::AxisRelativeDirection { direction, .. } => match direction_of_wire(direction) {
            Some(d) => AxisCounts { relative_direction: Some(d), ..c },
            None => c,
        },
        _ => c,
    }
}

/// The axis an event names, if it names a known one.
pub open spec fn signal_side(e: AxisSignal) -> Option<AxisSide> {
    match e {
        AxisSignal::Axis { axis, .. } | AxisSignal::AxisStop { axis, .. } | AxisSignal::AxisValue120 {
            axis,
            ..
        } | AxisSignal::AxisDiscrete { axis, .. } | AxisSignal::AxisRelativeDirection {
            axis,
            ..
        } => side_of_wire(axis),
        AxisSignal::AxisSource { .. } => None,
    }
}

/// The tally after one axis event, and the axis whose scroll distance the
/// caller adds the event's distance to (for `wl_pointer.axis`): a source
/// is taken when known, an event for an unknown axis is dropped, a timed
/// event gives the frame its time if it has none yet.
pub open spec fn tally_next(t: AxisTally, e: AxisSignal) -> (AxisTally, Option<AxisSide>) {
    match e {
        AxisSignal::AxisSource { source } => (
            match source_of_wire(source) {
                Some(s) => AxisTally { source: Some(s), ..t },
                None => t,
            },
            None,
        ),
        _ => match signal_side(e) {
            None => (t, None),
            Some(side) => {
                let time = match e {
                    AxisSignal::Axis { time, .. } | AxisSignal::AxisStop { time, .. } => if t.time is Some {
                        t.time
                    } else {
                        Some(time)
                    },
                    _ => t.time,
                };
                let t2 = match side {
                    AxisSide::Vertical => AxisTally { vertical: counts_next(t.vertical, e), time, ..t },
                    AxisSide::Horizontal => AxisTally { horizontal: counts_next(t.horizontal, e), time, ..t },
                };
                (t2, if e is Axis { Some(side) } else { None })
            },
        },
    }
}

/// The step counts of an event fit in an `i32` when added.
pub open spec fn counts_fit(c: AxisCounts, e: AxisSignal) -> bool {
    &&& (e matches AxisSignal::AxisValue120 { value120, .. } ==> i32::MIN <= c.value120 + value120 <= i32::MAX)
    &&& (e matches AxisSignal::AxisDiscrete { discrete, .. } ==> i32::MIN <= c.discrete + discrete <= i32::MAX)
}

/// The counts of the axis `e` names fit after `e`.
pub open spec fn tally_fits(t: AxisTally, e: AxisSignal) -> bool {
    match signal_side(e) {
        Some(AxisSide::Vertical) => counts_fit(t.vertical, e),
        Some(AxisSide::Horizontal) => counts_fit(t.horizontal, e),
        None => true,
    }
}

impl AxisCounts {
    fn take(&mut self, e: AxisSignal)
        requires
            counts_fit(*old(self), e),
        ensures
            *final(self) == counts_next(*old(self), e),
    {
        match e {
            AxisSignal::AxisStop { .. } => self.stop = true,
            AxisSignal::AxisValue120 { value120, .. } => self.value120 = self.value120 + value120,
            AxisSignal::AxisDiscrete { discrete, .. } => self.discrete = self.discrete + discrete,
            AxisSignal::AxisRelativeDirection { direction, .. } => {
                if let Some(d) = direction_from_wire(direction) {
                    self.relative_direction = Some(d);
                }
            },
            _ => {},
        }
    }
}

impl AxisTally {
    /// A frame with no axis event yet.
    pub fn new() -> (r: AxisTally)
        ensures
            r == (AxisTally { time: None, horizontal: no_counts(), vertical: no_counts(), source: None }),
    {
        let none = AxisCounts { value120: 0, discrete: 0, relative_direction: None, stop: false };
        AxisTally { time: None, horizontal: none, vertical: none, source: None }
    }

    /// Folds an axis event into the frame. Returns the axis to which the
    /// caller adds the distance of a `wl_pointer.axis`.
    pub fn accumulate(&mut self, event: AxisSignal) -> (r: Option<AxisSide>)
        requires
            tally_fits(*old(self), event),
        ensures
            (*final(self), r) == tally_next(*old(self), event),
    {
        let axis = match event {
            AxisSignal::AxisSource { source } => {
                if let Some(s) = Source::from_wayland(source) {
                    self.source = Some(s);
                }
                return None;
            },
            AxisSignal::Axis { axis, .. } => axis,
            AxisSignal::AxisStop { axis, .. } => axis,
            AxisSignal::AxisValue120 { axis, .. } => axis,
            AxisSignal::AxisDiscrete { axis, .. } => axis,
            AxisSignal::AxisRelativeDirection { axis, .. } => axis,
        };
        let side = match axis_side_from_wire(axis) {
            Some(side) => side,
            None => return None,
        };
        match event {
            AxisSignal::Axis { time, .. } | AxisSignal::AxisStop { time, .. } => {
                if self.time.is_none() {
                    self.time = Some(time);
                }
            },
            _ => {},
        }
        match side {
            AxisSide::Vertical => self.vertical.take(event),
            AxisSide::Horizontal => self.horizontal.take(event),
        }
        match event {
            AxisSignal::Axis { .. } => Some(side),
            _ => None,
        }
    }
}

/// The events of one pointer since its last `wl_pointer.frame`.
#[derive(Debug)]
pub struct PointerFrame<M> {
    /// the events other than axis events, with the surface's unit
    pub messages: Vec<(Option<u64>, M)>,
    /// where the folded axis events go among them, and the unit of the
    /// surface at the first axis event
    pub axis: Option<(usize, Option<u64>)>,
}

/// The messages of a frame in order, with `axis` placed where the first
/// axis event came.
pub open spec fn frame_messages<M>(messages: Seq<(Option<u64>, M)>, axis_at: Option<(usize, Option<u64>)>, axis: Option<M>) -> Seq<(Option<u64>, M)> {
    match (axis_at, axis) {
        (Some((i, id)), Some(m)) => messages.insert(i as int, (id, m)),
        _ => messages,
    }
}

impl<M> PointerFrame<M> {
    /// A frame with no events.
    pub fn new() -> (r: PointerFrame<M>)
        ensures
            r.messages@.len() == 0,
            r.axis is None,
    {
        PointerFrame { messages: Vec::new(), axis: None }
    }

    /// Holds a pointer event that is not an axis event.
    pub fn push(&mut self, surface_id: Option<u64>, message: M)
        requires
            old(self).axis matches Some((i, _)) ==> i <= old(self).messages@.len(),
        ensures
            final(self).messages@ == old(self).messages@.push((surface_id, message)),
            final(self).axis == old(self).axis,
            final(self).axis matches Some((i, _)) ==> i <= final(self).messages@.len(),
    {
        self.messages.push((surface_id, message));
    }

    /// Notes an axis event: the first one of the frame fixes where the
    /// folded scroll goes and for which unit.
    pub fn note_axis(&mut self, surface_id: Option<u64>)
        requires
            old(self).axis matches Some((i, _)) ==> i <= old(self).messages@.len(),
        ensures
            final(self).messages@ == old(self).messages@,
            final(self).axis == (if old(self).axis is Some {
                old(self).axis
            } else {
                Some((old(self).messages@.len() as usize, surface_id))
            }),
            final(self).axis matches Some((i, _)) ==> i <= final(self).messages@.len(),
    {
        if self.axis.is_none() {
            self.axis = Some((self.messages.len(), surface_id));
        }
    }

    /// The frame's events in the order they came, with the folded scroll
    /// `axis` where the first axis event was.
    pub fn into_messages(self, axis: Option<M>) -> (r: Vec<(Option<u64>, M)>)
        requires
            self.axis matches Some((i, _)) ==> i <= self.messages@.len(),
        ensures
            r@ == frame_messages(self.messages@, self.axis, axis),
    {
        let mut messages = self.messages;
        match (self.axis, axis) {
            (Some((index, surface_id)), Some(m)) => {
                messages.insert(index, (surface_id, m));
            },
            _ => {},
        }
        messages
    }
}

/// Held events come out in the order they came, the scroll where its
/// first axis event was: what came before it stays before it, what came
/// after stays after.
pub proof fn lemma_frame_order<M>(messages: Seq<(Option<u64>, M)>, i: usize, id: Option<u64>, m: M)
    requires
        i <= messages.len(),
    ensures
        ({
            let out = frame_messages(messages, Some((i, id)), Some(m));
            &&& out.len() == messages.len() + 1
            &&& out[i as int] == (id, m)
            &&& forall|k: int| 0 <= k < i ==> out[k] == messages[k]
            &&& forall|k: int| i <= k < messages.len() ==> out[k + 1] == messages[k]
        }),
{
}

} // verus!
