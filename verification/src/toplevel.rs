//! The window state that `xdg_toplevel.configure` reports.

use vstd::prelude::*;
use wayland_protocols::xdg::shell::client::xdg_toplevel::State;
use crate::geometry::Size;

verus! {

/// Window state reported by `xdg_toplevel.configure`.
#[derive(Debug, Clone, Copy, PartialEq, Eq, Structural)]
pub struct ToplevelState {
    /// the surface is maximized
    pub maximized: bool,
    /// the surface is fullscreen
    pub fullscreen: bool,
    /// at least one edge is tiled against another surface or the output
    pub tiled: bool,
    /// the compositor considers this surface active
    pub activated: bool,
}

impl Default for ToplevelState {
    fn default() -> (r: Self)
        ensures
            r == (ToplevelState { maximized: false, fullscreen: false, tiled: false, activated: false }),
    {
        ToplevelState { maximized: false, fullscreen: false, tiled: false, activated: false }
    }
}

/// What a state of the `xdg_toplevel.state` enum means to
/// [`ToplevelState`].
#[derive(Debug, Clone, Copy, PartialEq, Eq, Structural)]
pub enum ToplevelFlag {
    Maximized,
    Fullscreen,
    Activated,
    /// tiled on the left, right, top or bottom
    Tiled,
    /// resizing, suspended, or constrained on an edge
    Other,
}

/// The state that wire value `raw` names, as `xdg-shell.xml` numbers
/// them: maximized 1, fullscreen 2, resizing 3, activated 4, tiled on the
/// left, right, top and bottom 5 to 8, suspended 9, constrained on the
/// left, right, top and bottom 10 to 13.
pub open spec fn flag_of_wire(raw: u32) -> Option<ToplevelFlag> {
    if raw == 1 {
        Some(ToplevelFlag::Maximized)
    } else if raw == 2 {
        Some(ToplevelFlag::Fullscreen)
    } else if raw == 4 {
        Some(ToplevelFlag::Activated)
    } else if 5 <= raw <= 8 {
        Some(ToplevelFlag::Tiled)
    } else if raw == 3 || 9 <= raw <= 13 {
        Some(ToplevelFlag::Other)
    } else {
        None
    }
}

/// `xdg_toplevel::State::try_from`, the conversion that the protocol
/// scanner generates from `xdg-shell.xml`: the values 1 to 13 name the
/// states as [`flag_of_wire`] lists them, any other value is refused.
#[verifier::external_body]
fn toplevel_flag_from_wire(raw: u32) -> (r: Option<ToplevelFlag>)
    ensures
        r == flag_of_wire(raw),
{
    match State::try_from(raw) {
        Ok(State::Maximized) => Some(ToplevelFlag::Maximized),
        Ok(State::Fullscreen) => Some(ToplevelFlag::Fullscreen),
        Ok(State::Activated) => Some(ToplevelFlag::Activated),
        Ok(State::TiledLeft | State::TiledRight | State::TiledTop | State::TiledBottom) => Some(ToplevelFlag::Tiled),
        Ok(_) => Some(ToplevelFlag::Other),
        Err(_) => None,
    }
}

/// Whether some word of `words` names a state that `pick` selects.
pub open spec fn has_flag(words: Seq<u32>, pick: spec_fn(ToplevelFlag) -> bool) -> bool {
    exists|i: int| 0 <= i < words.len() && (flag_of_wire(#[trigger] words[i]) matches Some(f) && pick(f))
}

/// The window state that the state words of a configure report: each
/// flag is set when a word names it; unknown words are skipped.
pub open spec fn state_of_words(words: Seq<u32>) -> ToplevelState {
    ToplevelState {
        maximized: has_flag(words, |f: ToplevelFlag| f == ToplevelFlag::Maximized),
        fullscreen: has_flag(words, |f: ToplevelFlag| f == ToplevelFlag::Fullscreen),
        tiled: has_flag(words, |f: ToplevelFlag| f == ToplevelFlag::Tiled),
        activated: has_flag(words, |f: ToplevelFlag| f == ToplevelFlag::Activated),
    }
}

/// The word of four bytes, lowest byte first.
pub open spec fn word_le(b0: u8, b1: u8, b2: u8, b3: u8) -> int {
    b0 + 256 * b1 + 65536 * b2 + 16777216 * b3
}

/// `u32::from_ne_bytes`: the bytes read in the machine's byte order,
/// lowest byte first or highest byte first. Which one depends on the
/// machine and is not stated. The library calls it on the bytes 1, 0, 0, 0
/// to learn the order, which is then the same for every word it reads.
#[verifier::external_body]
fn word_from_ne_bytes(b0: u8, b1: u8, b2: u8, b3: u8) -> (r: u32)
    ensures
        r == word_le(b0, b1, b2, b3) || r == word_le(b3, b2, b1, b0),
{
    u32::from_ne_bytes([b0, b1, b2, b3])
}

/// The `i`-th four-byte chunk of `bytes` as a word, lowest byte first when
/// `little` holds, highest byte first otherwise.
pub open spec fn word_at(bytes: Seq<u8>, i: int, little: bool) -> u32 {
    if little {
        word_le(bytes[4 * i], bytes[4 * i + 1], bytes[4 * i + 2], bytes[4 * i + 3]) as u32
    } else {
        word_le(bytes[4 * i + 3], bytes[4 * i + 2], bytes[4 * i + 1], bytes[4 * i]) as u32
    }
}

/// The whole four-byte chunks of `bytes`, all read in one byte order;
/// trailing bytes are left out.
pub open spec fn words_in(bytes: Seq<u8>, little: bool) -> Seq<u32> {
    Seq::new(bytes.len() / 4, |i: int| word_at(bytes, i, little))
}

/// The window state that a configure's state words report.
pub fn toplevel_state_from_words(words: &[u32]) -> (r: ToplevelState)
    ensures
        r == state_of_words(words@),
{
    let mut state = ToplevelState { maximized: false, fullscreen: false, tiled: false, activated: false };
    let mut i: usize = 0;
    while i < words.len()
        invariant
            0 <= i <= words@.len(),
            state == state_of_words(words@.take(i as int)),
        decreases words@.len() - i,
    {
        let flag = toplevel_flag_from_wire(words[i]);
        proof {
            let t = words@.take(i as int);
            let t1 = words@.take(i as int + 1);
            assert(forall|k: int| 0 <= k < t.len() ==> t1[k] == #[trigger] t[k]);
            assert(t1[i as int] == words@[i as int]);
        }
        match flag {
            Some(ToplevelFlag::Maximized) => state.maximized = true,
            Some(ToplevelFlag::Fullscreen) => state.fullscreen = true,
            Some(ToplevelFlag::Activated) => state.activated = true,
            Some(ToplevelFlag::Tiled) => state.tiled = true,
            _ => {},
        }
        i += 1;
    }
    proof {
        assert(words@.take(words@.len() as int) =~= words@);
    }
    state
}

/// The word that four bytes make, lowest byte first when `little` holds,
/// highest byte first otherwise.
fn assemble_word(b0: u8, b1: u8, b2: u8, b3: u8, little: bool) -> (r: u32)
    ensures
        r == (if little { word_le(b0, b1, b2, b3) } else { word_le(b3, b2, b1, b0) }),
{
    let (lo, m1, m2, hi) = if little { (b0, b1, b2, b3) } else { (b3, b2, b1, b0) };
    lo as u32 + 256 * (m1 as u32) + 65536 * (m2 as u32) + 16777216 * (hi as u32)
}

/// The window state that the raw state array of `xdg_toplevel.configure`
/// reports, its 32-bit words read lowest byte first when `little` holds,
/// highest byte first otherwise; trailing bytes are left out.
pub fn toplevel_state_from_bytes(states: &[u8], little: bool) -> (r: ToplevelState)
    ensures
        r == state_of_words(words_in(states@, little)),
{
    let mut words: Vec<u32> = Vec::new();
    let mut i: usize = 0;
    while states.len() - i >= 4
        invariant
            i == 4 * words@.len(),
            i <= states@.len(),
            forall|k: int| 0 <= k < words@.len() ==> #[trigger] words@[k] == word_at(states@, k, little),
        decreases states@.len() - i,
    {
        let w = assemble_word(states[i], states[i + 1], states[i + 2], states[i + 3], little);
        proof {
            let k = words@.len() as int;
            assert(4 * k == i);
        }
        words.push(w);
        i += 4;
    }
    proof {
        assert(words@ =~= words_in(states@, little));
    }
    toplevel_state_from_words(words.as_slice())
}

/// The window state that the raw state array of `xdg_toplevel.configure`
/// reports. The array holds 32-bit words in the machine's byte order, the
/// same for every word; trailing bytes are left out.
pub fn toplevel_state_from_configure(states: &[u8]) -> (r: ToplevelState)
    ensures
        exists|little: bool| r == state_of_words(words_in(states@, little)),
{
    let probe = word_from_ne_bytes(1, 0, 0, 0);
    toplevel_state_from_bytes(states, probe == 1)
}

/// What a toplevel does with `xdg_toplevel.configure`.
#[derive(Debug, Clone, Copy, PartialEq, Eq)]
pub struct ToplevelConfigure {
    /// the window's size afterwards
    pub size: Size<u32>,
    /// the window state afterwards
    pub state: ToplevelState,
    /// the state changed: a `ToplevelStateChanged` notice is owed
    pub state_changed: bool,
}

/// A configure of `width` by `height` with state `state` for a toplevel
/// of size `size` and state `previous`: a size of zero on either side
/// keeps the window's size, any other is taken (as the compositor's
/// values are cast to `u32`).
pub fn toplevel_configure(size: Size<u32>, previous: ToplevelState, width: i32, height: i32, state: ToplevelState) -> (r: ToplevelConfigure)
    ensures
        r.size == (if width != 0 && height != 0 {
            Size { width: width as u32, height: height as u32 }
        } else {
            size
        }),
        r.state == state,
        r.state_changed == (state != previous),
{
    let size = if width != 0 && height != 0 {
        #[verifier::truncate]
        let w = width as u32;
        #[verifier::truncate]
        let h = height as u32;
        Size { width: w, height: h }
    } else {
        size
    };
    ToplevelConfigure { size, state, state_changed: state != previous }
}

} // verus!
