//! The devices of a seat: which objects exist for it, and what a change
//! of its capabilities creates or drops.

use vstd::prelude::*;

verus! {

/// A capability of `wl_seat`.
#[derive(Debug, Clone, Copy, PartialEq, Eq, Structural)]
pub enum Capability {
    Pointer,
    Keyboard,
    Touch,
}

/// The objects a seat has.
#[derive(Debug, Clone, Copy, PartialEq, Eq, Structural)]
pub struct SeatDevices {
    pub pointer: bool,
    pub keyboard: bool,
    pub touch: bool,
    pub text_input: bool,
}

/// What to create when a seat gains a capability.
#[derive(Debug, Clone, Copy, PartialEq, Eq, Structural)]
pub struct SeatSetup {
    /// create the seat's text input (kept even without a keyboard, for
    /// virtual keyboards)
    pub text_input: bool,
    /// create the object of this capability
    pub device: Option<Capability>,
}

/// Whether the seat has the object of `cap`.
pub open spec fn has_device(d: SeatDevices, cap: Capability) -> bool {
    match cap {
        Capability::Pointer => d.pointer,
        Capability::Keyboard => d.keyboard,
        Capability::Touch => d.touch,
    }
}

/// The seat with the object of `cap` present or not.
pub open spec fn with_device(d: SeatDevices, cap: Capability, present: bool) -> SeatDevices {
    match cap {
        Capability::Pointer => SeatDevices { pointer: present, ..d },
        Capability::Keyboard => SeatDevices { keyboard: present, ..d },
        Capability::Touch => SeatDevices { touch: present, ..d },
    }
}

/// The seat after it gained `cap`, and what to create: see
/// [`SeatDevices::new_capability`].
pub open spec fn gained(d: SeatDevices, cap: Capability, manager: bool) -> (SeatDevices, SeatSetup) {
    (
        with_device(SeatDevices { text_input: d.text_input || manager, ..d }, cap, true),
        SeatSetup {
            text_input: !d.text_input && manager,
            device: if has_device(d, cap) {
                None
            } else {
                Some(cap)
            },
        },
    )
}

impl SeatDevices {
    /// A seat without objects.
    pub fn new() -> (r: SeatDevices)
        ensures
            r == (SeatDevices { pointer: false, keyboard: false, touch: false, text_input: false }),
    {
        SeatDevices { pointer: false, keyboard: false, touch: false, text_input: false }
    }

    fn has(&self, cap: Capability) -> (r: bool)
        ensures
            r == has_device(*self, cap),
    {
        match cap {
            Capability::Pointer => self.pointer,
            Capability::Keyboard => self.keyboard,
            Capability::Touch => self.touch,
        }
    }

    fn set(&mut self, cap: Capability, present: bool)
        ensures
            *final(self) == with_device(*old(self), cap, present),
    {
        match cap {
            Capability::Pointer => self.pointer = present,
            Capability::Keyboard => self.keyboard = present,
            Capability::Touch => self.touch = present,
        }
    }

    /// `wl_seat` gained `cap`: the seat gets a text input if it has none
    /// and the compositor offers a text-input manager, and the object of
    /// the capability if it has none.
    pub fn new_capability(&mut self, cap: Capability, text_input_manager: bool) -> (r: SeatSetup)
        ensures
            (*final(self), r) == gained(*old(self), cap, text_input_manager),
    {
        let text_input = !self.text_input && text_input_manager;
        if !self.text_input {
            self.text_input = text_input_manager;
        }
        let device = if self.has(cap) {
            None
        } else {
            Some(cap)
        };
        self.set(cap, true);
        SeatSetup { text_input, device }
    }

    /// `wl_seat` lost `cap`: its object is dropped. Returns whether there
    /// was one to drop (held pointer events are then flushed first).
    pub fn remove_capability(&mut self, cap: Capability) -> (r: bool)
        ensures
            r == has_device(*old(self), cap),
            *final(self) == with_device(*old(self), cap, false),
    {
        let had = self.has(cap);
        self.set(cap, false);
        had
    }
}

/// Gaining a capability twice creates its object and the text input
/// once: the second time nothing is created.
pub proof fn lemma_capability_created_once(d: SeatDevices, cap: Capability, manager: bool)
    ensures
        gained(gained(d, cap, manager).0, cap, manager).1 == (SeatSetup { text_input: false, device: None }),
        has_device(gained(d, cap, manager).0, cap),
{
}

/// A lost capability's object is dropped once: losing it again drops
/// nothing.
pub proof fn lemma_capability_dropped_once(d: SeatDevices, cap: Capability)
    ensures
        !has_device(with_device(d, cap, false), cap),
        with_device(with_device(d, cap, false), cap, false) == with_device(d, cap, false),
{
}

} // verus!
