//! Keyboard focus and key repeat.
//!
//! The compositor sends key presses once; a held key repeats on the
//! client's own timer, after the configured delay and then every gap, for
//! as long as it stays the last key pressed that repeats.

use vstd::prelude::*;
use crate::unit_outputs::active_index;
use crate::units::{WindowRegistry, surface_owner};

verus! {

/// Key repeat as the compositor configured it.
#[derive(Debug, Clone, Copy, PartialEq, Eq, Structural)]
pub enum RepeatInfo {
    /// repeat after `delay_millis`, then every `gap_micros`
    Repeat { gap_micros: u64, delay_millis: u64 },
    /// keys do not repeat
    Disable,
}

/// `wl_keyboard.repeat_info`: the repeat configuration for `rate` keys a
/// second after `delay` milliseconds. A rate of zero turns repeat off.
pub open spec fn spec_repeat_info(rate: i32, delay: i32) -> RepeatInfo {
    if rate == 0 {
        RepeatInfo::Disable
    } else {
        RepeatInfo::Repeat { gap_micros: (1_000_000u64 / (rate as u64)) as u64, delay_millis: delay as u64 }
    }
}

impl RepeatInfo {
    /// The repeat configuration of a `wl_keyboard.repeat_info` event. The
    /// values are taken as the compositor sent them, widened as `u64`.
    pub fn from_wayland(rate: i32, delay: i32) -> (r: RepeatInfo)
        ensures
            r == spec_repeat_info(rate, delay),
    {
        if rate == 0 {
            RepeatInfo::Disable
        } else {
            #[verifier::truncate]
            let per_second = rate as u64;
            assert(rate != 0 ==> rate as u64 != 0) by (bit_vector);
            #[verifier::truncate]
            let delay_millis = delay as u64;
            RepeatInfo::Repeat { gap_micros: 1_000_000 / per_second, delay_millis }
        }
    }
}

/// The repeat state of one keyboard.
#[derive(Debug, Clone, Copy, PartialEq, Eq, Structural)]
pub struct KeyRepeat {
    /// the compositor's repeat configuration
    pub info: RepeatInfo,
    /// the xkb keycode that repeats now
    pub current: Option<u32>,
    /// a repeat timer is registered with the event loop
    pub timer: bool,
}

/// What a keyboard reports that concerns key repeat.
#[derive(Debug, Clone, Copy, PartialEq, Eq, Structural)]
pub enum KeyboardSignal {
    /// `wl_keyboard.enter`
    Enter,
    /// `wl_keyboard.leave`
    Leave,
    /// `wl_keyboard.key` of evdev code `key`; `repeats` tells whether the
    /// keymap lets the key repeat (false without a keymap)
    Key { key: u32, pressed: bool, repeats: bool },
    /// `wl_keyboard.repeat_info`
    RepeatInfo { rate: i32, delay: i32 },
    /// the event loop registered the timer asked for
    TimerArmed,
    /// the repeat timer for xkb keycode `key` fired
    TimerFired { key: u32 },
}

/// A repeat timer: it fires after `delay_millis` for xkb keycode `key`.
#[derive(Debug, Clone, Copy, PartialEq, Eq, Structural)]
pub struct RepeatTimer {
    /// the delay before the first repeat
    pub delay_millis: u64,
    /// the key that repeats
    pub key: u32,
}

/// What the event loop does after a keyboard signal.
#[derive(Debug, Clone, Copy, PartialEq, Eq, Structural)]
pub struct RepeatStep {
    /// remove the registered repeat timer
    pub cancel_timer: bool,
    /// register this repeat timer
    pub arm_timer: Option<RepeatTimer>,
    /// deliver this xkb keycode again, as pressed
    pub repeat_key: Option<u32>,
    /// the fired timer fires again after this many microseconds; `None`
    /// drops it
    pub rearm_micros: Option<u64>,
}

/// A step that does nothing.
pub open spec fn quiet() -> RepeatStep {
    RepeatStep { cancel_timer: false, arm_timer: None, repeat_key: None, rearm_micros: None }
}

/// The xkb keycode of an evdev keycode.
pub open spec fn xkb_code(key: u32) -> int {
    key + 8
}

/// The state after a keyboard signal, and what the event loop does.
pub open spec fn repeat_next(s: KeyRepeat, e: KeyboardSignal) -> (KeyRepeat, RepeatStep) {
    match e {
        KeyboardSignal::Enter | KeyboardSignal::Leave => (
            KeyRepeat { current: None, timer: false, ..s },
            RepeatStep { cancel_timer: s.timer, ..quiet() },
        ),
        KeyboardSignal::Key { key, pressed, repeats } => {
            let k = (key + 8) as u32;
            if pressed {
                match s.info {
                    RepeatInfo::Disable => (s, quiet()),
                    RepeatInfo::Repeat { delay_millis, .. } => if !repeats {
                        (s, quiet())
                    } else {
                        (
                            KeyRepeat { current: Some(k), timer: false, ..s },
                            RepeatStep {
                                cancel_timer: s.timer,
                                arm_timer: Some(RepeatTimer { delay_millis, key: k }),
                                ..quiet()
                            },
                        )
                    },
                }
            } else if s.info != RepeatInfo::Disable && repeats && s.current == Some(k) {
                (
                    KeyRepeat { current: None, timer: false, ..s },
                    RepeatStep { cancel_timer: s.timer, ..quiet() },
                )
            } else {
                (s, quiet())
            }
        },
        KeyboardSignal::RepeatInfo { rate, delay } => if rate == 0 {
            (
                KeyRepeat { info: RepeatInfo::Disable, current: None, timer: false },
                RepeatStep { cancel_timer: s.timer, ..quiet() },
            )
        } else {
            (KeyRepeat { info: spec_repeat_info(rate, delay), ..s }, quiet())
        },
        KeyboardSignal::TimerArmed => (KeyRepeat { timer: true, ..s }, quiet()),
        KeyboardSignal::TimerFired { key } => if s.current == Some(key) {
            (
                s,
                RepeatStep {
                    repeat_key: Some(key),
                    rearm_micros: match s.info {
                        RepeatInfo::Repeat { gap_micros, .. } => Some(gap_micros),
                        RepeatInfo::Disable => None,
                    },
                    ..quiet()
                },
            )
        } else {
            (s, quiet())
        },
    }
}

/// Whether the keyboard signal's keycode has room for the xkb offset.
pub open spec fn signal_ok(e: KeyboardSignal) -> bool {
    e matches KeyboardSignal::Key { key, .. } ==> key + 8 <= u32::MAX
}

impl KeyRepeat {
    /// A keyboard with this repeat configuration and nothing repeating.
    pub fn new(info: RepeatInfo) -> (r: KeyRepeat)
        ensures
            r == (KeyRepeat { info, current: None, timer: false }),
    {
        KeyRepeat { info, current: None, timer: false }
    }

    /// Takes a keyboard signal: updates the repeat state and says what the
    /// event loop does about timers and repeated keys.
    pub fn handle(&mut self, event: KeyboardSignal) -> (r: RepeatStep)
        requires
            signal_ok(event),
        ensures
            (*final(self), r) == repeat_next(*old(self), event),
    {
        let none = RepeatStep { cancel_timer: false, arm_timer: None, repeat_key: None, rearm_micros: None };
        match event {
            KeyboardSignal::Enter | KeyboardSignal::Leave => {
                let cancel = self.timer;
                self.current = None;
                self.timer = false;
                RepeatStep { cancel_timer: cancel, ..none }
            },
            KeyboardSignal::Key { key, pressed, repeats } => {
                let k = key + 8;
                if pressed {
                    match self.info {
                        RepeatInfo::Disable => none,
                        RepeatInfo::Repeat { delay_millis, .. } => {
                            if !repeats {
                                return none;
                            }
                            let cancel = self.timer;
                            self.current = Some(k);
                            self.timer = false;
                            RepeatStep { cancel_timer: cancel, arm_timer: Some(RepeatTimer { delay_millis, key: k }), ..none }
                        },
                    }
                } else if self.info != RepeatInfo::Disable && repeats && self.current == Some(k) {
                    let cancel = self.timer;
                    self.current = None;
                    self.timer = false;
                    RepeatStep { cancel_timer: cancel, ..none }
                } else {
                    none
                }
            },
            KeyboardSignal::RepeatInfo { rate, delay } => {
                if rate == 0 {
                    let cancel = self.timer;
                    self.info = RepeatInfo::Disable;
                    self.current = None;
                    self.timer = false;
                    RepeatStep { cancel_timer: cancel, ..none }
                } else {
                    self.info = RepeatInfo::from_wayland(rate, delay);
                    none
                }
            },
            KeyboardSignal::TimerArmed => {
                self.timer = true;
                none
            },
            KeyboardSignal::TimerFired { key } => {
                if self.current == Some(key) {
                    let rearm = match self.info {
                        RepeatInfo::Repeat { gap_micros, .. } => Some(gap_micros),
                        RepeatInfo::Disable => None,
                    };
                    RepeatStep { repeat_key: Some(key), rearm_micros: rearm, ..none }
                } else {
                    none
                }
            },
        }
    }
}

/// Losing or gaining keyboard focus stops any repeat, and drops its timer.
pub proof fn lemma_focus_change_stops_repeat(s: KeyRepeat, e: KeyboardSignal)
    requires
        e is Enter || e is Leave,
    ensures
        repeat_next(s, e).0.current is None,
        repeat_next(s, e).1.cancel_timer == s.timer,
        repeat_next(s, e).1.arm_timer is None,
{
}

/// A rate of zero turns repeat off: what repeated stops, and no key
/// pressed afterwards repeats until the compositor sends a rate again.
pub proof fn lemma_zero_rate_disables(s: KeyRepeat, delay: i32, key: u32, repeats: bool)
    ensures
        ({
            let off = repeat_next(s, KeyboardSignal::RepeatInfo { rate: 0, delay }).0;
            &&& off.info == RepeatInfo::Disable
            &&& off.current is None
            &&& repeat_next(off, KeyboardSignal::Key { key, pressed: true, repeats }).1.arm_timer is None
            &&& repeat_next(off, KeyboardSignal::Key { key, pressed: true, repeats }).0.current is None
        }),
{
}

/// Releasing the key that repeats stops the repeat and drops its timer.
pub proof fn lemma_release_stops_repeat(s: KeyRepeat, key: u32)
    requires
        key + 8 <= u32::MAX,
        s.info is Repeat,
        s.current == Some((key + 8) as u32),
    ensures
        repeat_next(s, KeyboardSignal::Key { key, pressed: false, repeats: true }).0.current is None,
        repeat_next(s, KeyboardSignal::Key { key, pressed: false, repeats: true }).1.cancel_timer
            == s.timer,
{
}

/// Pressing a key that repeats makes it the repeating key, replacing the
/// one before, and asks for a timer after the configured delay.
pub proof fn lemma_press_takes_over(s: KeyRepeat, key: u32, gap: u64, delay: u64)
    requires
        key + 8 <= u32::MAX,
        s.info == (RepeatInfo::Repeat { gap_micros: gap, delay_millis: delay }),
    ensures
        repeat_next(s, KeyboardSignal::Key { key, pressed: true, repeats: true }).0.current == Some(
            (key + 8) as u32,
        ),
        repeat_next(s, KeyboardSignal::Key { key, pressed: true, repeats: true }).1.arm_timer == Some(
            RepeatTimer { delay_millis: delay, key: (key + 8) as u32 },
        ),
{
}

/// A timer for a key that no longer repeats delivers nothing and is
/// dropped.
pub proof fn lemma_stale_timer_ignored(s: KeyRepeat, key: u32)
    requires
        s.current != Some(key),
    ensures
        repeat_next(s, KeyboardSignal::TimerFired { key }) == (s, quiet()),
{
}

/// The compositor's repeat configuration is taken as sent: after a
/// `repeat_info` with a rate of `rate` > 0 keys a second and a delay of
/// `delay` milliseconds, keys repeat every `1_000_000 / rate`
/// microseconds (the gap `g` with `g * rate <= 1_000_000 < (g + 1) *
/// rate`) after `delay` milliseconds; the repeating key and its timer are
/// left as they were, and a key pressed afterwards that repeats asks for a
/// timer after that delay. Any rate other than zero turns repeat on.
pub proof fn lemma_repeat_info_taken(s: KeyRepeat, rate: i32, delay: i32, key: u32)
    requires
        key + 8 <= u32::MAX,
    ensures
        ({
            let (next, step) = repeat_next(s, KeyboardSignal::RepeatInfo { rate, delay });
            &&& rate != 0 ==> next.info is Repeat && next.current == s.current && next.timer == s.timer
                && step == quiet()
            &&& rate != 0 && delay >= 0 ==> next.info->delay_millis == delay
            &&& rate > 0 ==> next.info->gap_micros * rate <= 1_000_000 < (next.info->gap_micros + 1) * rate
            &&& rate != 0 && delay >= 0 ==> repeat_next(next, KeyboardSignal::Key { key, pressed: true, repeats: true }).1.arm_timer
                == Some(RepeatTimer { delay_millis: delay as u64, key: (key + 8) as u32 })
        }),
{
    if rate > 0 {
        let r = rate as u64;
        assert(r == rate);
        let g = 1_000_000u64 / r;
        assert(g * r <= 1_000_000 < (g + 1) * r) by (nonlinear_arith)
            requires
                r > 0,
                g == 1_000_000u64 / r,
        ;
    }
}

/// The repeat timer of the key that repeats delivers that key once more
/// and is set again after the configured gap; the state stays as it is.
/// A registered timer is remembered, so the next focus change or release
/// drops it.
pub proof fn lemma_timer_repeats_current_key(s: KeyRepeat, key: u32, gap: u64, delay: u64)
    requires
        s.current == Some(key),
        s.info == (RepeatInfo::Repeat { gap_micros: gap, delay_millis: delay }),
    ensures
        ({
            let (next, step) = repeat_next(s, KeyboardSignal::TimerFired { key });
            &&& next == s
            &&& step.repeat_key == Some(key)
            &&& step.rearm_micros == Some(gap)
            &&& !step.cancel_timer && step.arm_timer is None
        }),
        repeat_next(s, KeyboardSignal::TimerArmed).0.timer,
        repeat_next(repeat_next(s, KeyboardSignal::TimerArmed).0, KeyboardSignal::Leave).1.cancel_timer,
{
}

/// Whether a unit is named `id`.
pub open spec fn has_unit(units: Seq<crate::units::UnitRecord>, id: u64) -> bool {
    exists|i: int| 0 <= i < units.len() && units[i].id == id
}

/// The first of `ids` that names a unit.
pub open spec fn first_unit_among(units: Seq<crate::units::UnitRecord>, ids: Seq<u64>) -> Option<u64> {
    if exists|k: int| 0 <= k < ids.len() && #[trigger] has_unit(units, ids[k]) {
        let k = choose|k: int|
            0 <= k < ids.len() && #[trigger] has_unit(units, ids[k]) && forall|j: int|
                0 <= j < k ==> !#[trigger] has_unit(units, ids[j]);
        Some(ids[k])
    } else {
        None
    }
}

/// The unit a popup without a given parent opens on: the one with keyboard
/// focus, else the one under the pointer, else the first of those under a
/// finger, else the newest unit.
pub open spec fn popup_parent_spec(r: WindowRegistry, pointer_unit: Option<u64>, touch_units: Seq<u64>) -> Option<u64> {
    let focus = match r.keyboard_focus {
        Some(surface) => surface_owner(r.units@, surface),
        None => None,
    };
    if focus is Some {
        focus
    } else if pointer_unit matches Some(p) && has_unit(r.units@, p) {
        pointer_unit
    } else if first_unit_among(r.units@, touch_units) is Some {
        first_unit_among(r.units@, touch_units)
    } else if r.units@.len() > 0 {
        Some(r.units@.last().id)
    } else {
        None
    }
}

impl WindowRegistry {
    /// The parent of a popup opened without one: see
    /// [`popup_parent_spec`]. `pointer_unit` is the unit the pointer is
    /// over; `touch_units` those under fingers, in the order the caller
    /// keeps them.
    pub fn popup_parent_id(&self, pointer_unit: Option<u64>, touch_units: &Vec<u64>) -> (r: Option<u64>)
        requires
            self.wf(),
        ensures
            r == popup_parent_spec(*self, pointer_unit, touch_units@),
    {
        let focus = self.keyboard_focus_id();
        if focus.is_some() {
            return focus;
        }
        if let Some(p) = pointer_unit {
            if self.unit_index(p).is_some() {
                return pointer_unit;
            }
        }
        let mut k: usize = 0;
        while k < touch_units.len()
            invariant
                0 <= k <= touch_units@.len(),
                self.wf(),
                (match self.keyboard_focus {
                    Some(surface) => surface_owner(self.units@, surface),
                    None => None,
                }) is None,
                !(pointer_unit matches Some(p) && has_unit(self.units@, p)),
                forall|j: int| 0 <= j < k ==> !#[trigger] has_unit(self.units@, touch_units@[j]),
            decreases touch_units@.len() - k,
        {
            if self.unit_index(touch_units[k]).is_some() {
                proof {
                    assert(has_unit(self.units@, touch_units@[k as int]));
                    let c = choose|c: int|
                        0 <= c < touch_units@.len() && #[trigger] has_unit(self.units@, touch_units@[c])
                            && forall|j: int| 0 <= j < c ==> !#[trigger] has_unit(self.units@, touch_units@[j]);
                    if c < k {
                        assert(!has_unit(self.units@, touch_units@[c]));
                    } else if c > k {
                        assert(!has_unit(self.units@, touch_units@[k as int]));
                    }
                }
                return Some(touch_units[k]);
            }
            k += 1;
        }
        if self.units.len() > 0 {
            Some(self.units[self.units.len() - 1].id)
        } else {
            None
        }
    }

    /// `wl_keyboard.enter` on `surface`: the surface gets keyboard focus and
    /// its output is remembered. Returns the unit owed a `Focused` notice:
    /// the surface's unit, unless the surface had focus already.
    pub fn keyboard_enter(&mut self, surface: u64) -> (r: Option<u64>)
        requires
            old(self).wf(),
        ensures
            final(self).wf(),
            final(self).keyboard_focus == Some(surface),
            r == (if old(self).keyboard_focus == Some(surface) {
                None
            } else {
                surface_owner(old(self).units@, surface)
            }),
            final(self).last_unit_index == active_index(
                old(self).units@,
                old(self).outputs@,
                surface,
                old(self).last_unit_index,
            ),
            final(self).units@ == old(self).units@,
            final(self).outputs@ == old(self).outputs@,
            final(self).last_output == old(self).last_output,
    {
        self.update_active_output(surface);
        if self.keyboard_focus == Some(surface) {
            return None;
        }
        let id = self.get_id_from_surface(surface);
        self.keyboard_focus = Some(surface);
        id
    }

    /// `wl_keyboard.leave` of `surface`: nothing has keyboard focus. Returns
    /// the unit owed the `ModifiersChanged` (to none) and `Unfocus` notices.
    pub fn keyboard_leave(&mut self, surface: u64) -> (r: Option<u64>)
        requires
            old(self).wf(),
        ensures
            final(self).wf(),
            final(self).keyboard_focus is None,
            r == surface_owner(old(self).units@, surface),
            final(self).units@ == old(self).units@,
            final(self).outputs@ == old(self).outputs@,
            final(self).last_unit_index == old(self).last_unit_index,
            final(self).last_output == old(self).last_output,
    {
        self.keyboard_focus = None;
        self.get_id_from_surface(surface)
    }
}

} // verus!
