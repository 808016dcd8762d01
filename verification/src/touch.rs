//! The surfaces the pointer and each finger are on.
//!
//! The pointer is on the surface it entered until it leaves; a finger is
//! on the surface it touched down on until it goes up or the touch
//! sequence is cancelled. Events of the pointer or a finger go to the unit
//! of that surface.

use vstd::prelude::*;
use crate::keyboard::has_unit;
use crate::units::WindowRegistry;

verus! {

/// A finger on a surface: its touch id, the surface, and the surface's
/// unit when it has one.
#[derive(Debug, Clone, Copy, PartialEq, Eq, Structural)]
pub struct Finger {
    pub id: i32,
    pub surface: u64,
    pub unit: Option<u64>,
}

/// Where the pointer and the fingers are.
#[derive(Debug)]
pub struct ActiveSurfaces {
    /// the surface the pointer is on, and its unit
    pub pointer: Option<(u64, Option<u64>)>,
    /// the fingers that are down, each touch id once
    pub fingers: Vec<Finger>,
}

/// Each touch id occurs once.
pub open spec fn distinct_fingers(f: Seq<Finger>) -> bool {
    forall|i: int, j: int| 0 <= i < j < f.len() ==> #[trigger] f[i].id != #[trigger] f[j].id
}

/// The place of the finger with touch id `id`.
pub open spec fn finger_index(f: Seq<Finger>, id: i32) -> Option<int> {
    if exists|i: int| 0 <= i < f.len() && f[i].id == id {
        Some(choose|i: int| 0 <= i < f.len() && f[i].id == id)
    } else {
        None
    }
}

/// The units of the fingers in `f` that are on a unit, in order.
pub open spec fn finger_unit_seq(f: Seq<Finger>) -> Seq<u64>
    decreases f.len(),
{
    if f.len() == 0 {
        Seq::empty()
    } else {
        finger_unit_seq(f.drop_last()) + match f.last().unit {
            Some(u) => seq![u],
            None => Seq::empty(),
        }
    }
}

impl ActiveSurfaces {
    /// Nothing is on any surface.
    pub fn new() -> (r: ActiveSurfaces)
        ensures
            r.pointer is None,
            r.fingers@.len() == 0,
    {
        ActiveSurfaces { pointer: None, fingers: Vec::new() }
    }

    /// Each touch id occurs once.
    pub open spec fn wf(&self) -> bool {
        distinct_fingers(self.fingers@)
    }

    fn find(&self, id: i32) -> (r: Option<usize>)
        requires
            self.wf(),
        ensures
            r matches Some(i) ==> i < self.fingers@.len() && finger_index(self.fingers@, id) == Some(i as int),
            r is None ==> finger_index(self.fingers@, id) is None,
    {
        let mut i: usize = 0;
        while i < self.fingers.len()
            invariant
                0 <= i <= self.fingers@.len(),
                self.wf(),
                forall|j: int| 0 <= j < i ==> self.fingers@[j].id != id,
            decreases self.fingers@.len() - i,
        {
            if self.fingers[i].id == id {
                proof {
                    let k = choose|k: int| 0 <= k < self.fingers@.len() && self.fingers@[k].id == id;
                    if k != i {
                        if k < i {
                        } else {
                            assert(self.fingers@[i as int].id != self.fingers@[k].id);
                        }
                    }
                }
                return Some(i);
            }
            i += 1;
        }
        None
    }

    /// `wl_touch.down`: finger `id` is on `surface`, of unit `unit`; a
    /// finger already down with that id is replaced.
    pub fn touch_down(&mut self, id: i32, surface: u64, unit: Option<u64>)
        requires
            old(self).wf(),
        ensures
            final(self).wf(),
            final(self).pointer == old(self).pointer,
            final(self).fingers@ == match finger_index(old(self).fingers@, id) {
                Some(i) => old(self).fingers@.update(i, Finger { id, surface, unit }),
                None => old(self).fingers@.push(Finger { id, surface, unit }),
            },
    {
        let finger = Finger { id, surface, unit };
        match self.find(id) {
            Some(i) => {
                self.fingers.set(i, finger);
                proof {
                    assert forall|a: int, b: int| 0 <= a < b < self.fingers@.len() implies #[trigger] self.fingers@[a].id
                        != #[trigger] self.fingers@[b].id by {
                        assert(old(self).fingers@[a].id != old(self).fingers@[b].id);
                    }
                }
            },
            None => {
                self.fingers.push(finger);
                proof {
                    assert forall|a: int, b: int| 0 <= a < b < self.fingers@.len() implies #[trigger] self.fingers@[a].id
                        != #[trigger] self.fingers@[b].id by {
                        if b < old(self).fingers@.len() {
                            assert(old(self).fingers@[a].id != old(self).fingers@[b].id);
                        } else {
                            assert(old(self).fingers@[a].id != id);
                        }
                    }
                }
            },
        }
    }

    /// `wl_touch.up`: finger `id` leaves its surface. Returns the unit its
    /// events went to; `None` too when the finger was not down.
    pub fn touch_up(&mut self, id: i32) -> (r: Option<u64>)
        requires
            old(self).wf(),
        ensures
            final(self).wf(),
            final(self).pointer == old(self).pointer,
            match finger_index(old(self).fingers@, id) {
                Some(i) => final(self).fingers@ == old(self).fingers@.remove(i) && r == old(self).fingers@[i].unit,
                None => final(self).fingers@ == old(self).fingers@ && r is None,
            },
    {
        match self.find(id) {
            Some(i) => {
                let f = self.fingers.remove(i);
                proof {
                    let o = old(self).fingers@;
                    assert forall|a: int, b: int| 0 <= a < b < self.fingers@.len() implies #[trigger] self.fingers@[a].id
                        != #[trigger] self.fingers@[b].id by {
                        let a0 = if a < i { a } else { a + 1 };
                        let b0 = if b < i { b } else { b + 1 };
                        assert(self.fingers@[a] == o[a0] && self.fingers@[b] == o[b0]);
                        assert(o[a0].id != o[b0].id);
                    }
                }
                f.unit
            },
            None => None,
        }
    }

    /// `wl_touch.motion` of finger `id`: the unit its events go to.
    pub fn touch_motion(&self, id: i32) -> (r: Option<u64>)
        requires
            self.wf(),
        ensures
            r == match finger_index(self.fingers@, id) {
                Some(i) => self.fingers@[i].unit,
                None => None,
            },
    {
        match self.find(id) {
            Some(i) => self.fingers[i].unit,
            None => None,
        }
    }

    /// `wl_touch.cancel`: every finger is lifted. Returns each finger that
    /// was down, with the unit owed its cancel; the pointer stays.
    pub fn touch_cancel(&mut self) -> (r: Vec<Finger>)
        ensures
            r@ == old(self).fingers@,
            final(self).fingers@.len() == 0,
            final(self).pointer == old(self).pointer,
            final(self).wf(),
    {
        let mut fingers: Vec<Finger> = Vec::new();
        std::mem::swap(&mut fingers, &mut self.fingers);
        fingers
    }

    /// `wl_pointer.enter` on `surface`, of unit `unit`.
    pub fn pointer_enter(&mut self, surface: u64, unit: Option<u64>)
        ensures
            final(self).pointer == Some((surface, unit)),
            final(self).fingers@ == old(self).fingers@,
    {
        self.pointer = Some((surface, unit));
    }

    /// `wl_pointer.leave`: the pointer is on no surface. Returns the unit
    /// its events went to; `None` too when it had not entered.
    pub fn pointer_leave(&mut self) -> (r: Option<u64>)
        ensures
            final(self).pointer is None,
            final(self).fingers@ == old(self).fingers@,
            r == match old(self).pointer {
                Some((_, unit)) => unit,
                None => None,
            },
    {
        let r = match self.pointer {
            Some((_, unit)) => unit,
            None => None,
        };
        self.pointer = None;
        r
    }

    /// The unit under the pointer, if it is still a unit of `registry`.
    pub fn pointer_surface_id(&self, registry: &WindowRegistry) -> (r: Option<u64>)
        requires
            registry.wf(),
        ensures
            r == match self.pointer {
                Some((_, Some(u))) => if has_unit(registry.units@, u) {
                    Some(u)
                } else {
                    None
                },
                _ => None,
            },
    {
        match self.pointer {
            Some((_, Some(u))) => {
                if registry.unit_index(u).is_some() {
                    Some(u)
                } else {
                    None
                }
            },
            _ => None,
        }
    }

    /// Whether the pointer is over the unit `unit`.
    pub fn is_mouse_surface(&self, unit: u64) -> (r: bool)
        ensures
            r == (self.pointer matches Some((_, Some(u))) && u == unit),
    {
        match self.pointer {
            Some((_, Some(u))) => u == unit,
            _ => false,
        }
    }

    /// The units under the fingers, in the order the fingers are kept:
    /// a finger that went down is added at the end, one that went down
    /// again with its id keeps its place.
    pub fn finger_units(&self) -> (r: Vec<u64>)
        ensures
            r@ == finger_unit_seq(self.fingers@),
            forall|u: u64| r@.contains(u) <==> exists|i: int| 0 <= i < self.fingers@.len() && self.fingers@[i].unit == Some(u),
    {
        let mut r: Vec<u64> = Vec::new();
        let mut i: usize = 0;
        while i < self.fingers.len()
            invariant
                0 <= i <= self.fingers@.len(),
                forall|u: u64| r@.contains(u) <==> exists|j: int| 0 <= j < i && self.fingers@[j].unit == Some(u),
                r@ == finger_unit_seq(self.fingers@.take(i as int)),
            decreases self.fingers@.len() - i,
        {
            proof {
                assert(self.fingers@.take(i as int + 1).drop_last() =~= self.fingers@.take(i as int));
            }
            if let Some(u) = self.fingers[i].unit {
                let ghost before = r@;
                r.push(u);
                proof {
                    assert forall|v: u64| r@.contains(v) <==> exists|j: int| 0 <= j < i + 1 && self.fingers@[j].unit == Some(v) by {
                        if r@.contains(v) {
                            let p = choose|p: int| 0 <= p < r@.len() && r@[p] == v;
                            if p < before.len() {
                                assert(before[p] == v);
                                assert(before.contains(v));
                            }
                        }
                        if exists|j: int| 0 <= j < i + 1 && self.fingers@[j].unit == Some(v) {
                            let j = choose|j: int| 0 <= j < i + 1 && self.fingers@[j].unit == Some(v);
                            if j < i {
                                assert(before.contains(v));
                                let p = choose|p: int| 0 <= p < before.len() && before[p] == v;
                                assert(r@[p] == v);
                            } else {
                                assert(r@[before.len() as int] == v);
                            }
                        }
                    }
                }
            } else {
                proof {
                    assert forall|v: u64| r@.contains(v) <==> exists|j: int| 0 <= j < i + 1 && self.fingers@[j].unit == Some(v) by {
                        if exists|j: int| 0 <= j < i + 1 && self.fingers@[j].unit == Some(v) {
                            let j = choose|j: int| 0 <= j < i + 1 && self.fingers@[j].unit == Some(v);
                            assert(j < i);
                        }
                    }
                }
            }
            i += 1;
        }
        proof {
            assert(self.fingers@.take(self.fingers@.len() as int) =~= self.fingers@);
        }
        r
    }
}

/// The serial of the latest button press or touch down, which a popup
/// uses for its grab.
#[derive(Debug, Clone, Copy, PartialEq, Eq, Structural)]
pub struct GrabSerial {
    pub serial: Option<u32>,
}

impl GrabSerial {
    /// No press yet.
    pub fn new() -> (r: GrabSerial)
        ensures
            r.serial is None,
    {
        GrabSerial { serial: None }
    }

    /// A button press or a touch down with `serial`.
    pub fn record(&mut self, serial: u32)
        ensures
            final(self).serial == Some(serial),
    {
        self.serial = Some(serial);
    }

    /// The latest serial, kept for the next grab.
    pub fn popup_grab_serial(&self) -> (r: Option<u32>)
        ensures
            r == self.serial,
    {
        self.serial
    }

    /// The latest serial, used up: the next grab needs a new press.
    pub fn take_popup_grab_serial(&mut self) -> (r: Option<u32>)
        ensures
            r == old(self).serial,
            final(self).serial is None,
    {
        self.serial.take()
    }
}

/// A finger that goes down and then up reports the unit it went down on,
/// and is no longer down.
pub proof fn lemma_touch_down_up(fingers: Seq<Finger>, id: i32, surface: u64, unit: Option<u64>)
    requires
        distinct_fingers(fingers),
        finger_index(fingers, id) is None,
    ensures
        ({
            let down = fingers.push(Finger { id, surface, unit });
            &&& finger_index(down, id) == Some(fingers.len() as int)
            &&& down[fingers.len() as int].unit == unit
            &&& down.remove(fingers.len() as int) == fingers
        }),
{
    let down = fingers.push(Finger { id, surface, unit });
    assert(down[fingers.len() as int].id == id);
    assert(down.remove(fingers.len() as int) =~= fingers);
}

} // verus!
