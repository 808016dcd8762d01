//! Decisions the event loop takes on the program's requests.

use vstd::prelude::*;
use crate::start::StartMode;
use crate::units::{WindowRegistry, WlShellType, index_of};

verus! {

/// How a popup can be attached to the unit it is opened on.
#[derive(Debug, Clone, Copy, PartialEq, Eq, Structural)]
pub enum PopupParent {
    /// no unit has the parent's id: the request is dropped
    Missing,
    /// the parent is neither a layer surface, a toplevel nor a popup: the
    /// request is dropped with a warning
    Unsupported,
    /// a layer surface: the popup is created without an xdg parent and
    /// handed to the layer surface
    Layer,
    /// a popup or a toplevel: the popup is created on its xdg surface
    Xdg,
}

/// How a popup attaches to a parent of role `shell`.
pub open spec fn parent_kind(shell: WlShellType) -> PopupParent {
    match shell {
        WlShellType::LayerShell => PopupParent::Layer,
        WlShellType::PopUp | WlShellType::XdgTopLevel => PopupParent::Xdg,
        _ => PopupParent::Unsupported,
    }
}

/// How a popup opened on the unit `parent` attaches to it.
pub fn popup_parent(registry: &WindowRegistry, parent: u64) -> (r: PopupParent)
    requires
        registry.wf(),
    ensures
        r == match index_of(registry.units@, parent) {
            Some(i) => parent_kind(registry.units@[i].shell),
            None => PopupParent::Missing,
        },
{
    match registry.unit_index(parent) {
        Some(i) => {
            proof {
                let k = choose|k: int| 0 <= k < registry.units@.len() && registry.units@[k].id == parent;
                if k != i {
                    if k < i {
                        assert(registry.units@[k].id != registry.units@[i as int].id);
                    } else {
                        assert(registry.units@[i as int].id != registry.units@[k].id);
                    }
                }
            }
            match registry.units[i].shell {
                WlShellType::LayerShell => PopupParent::Layer,
                WlShellType::PopUp | WlShellType::XdgTopLevel => PopupParent::Xdg,
                _ => PopupParent::Unsupported,
            }
        },
        None => PopupParent::Missing,
    }
}

/// Whether a new popup grabs the pointer.
#[derive(Debug, Clone, Copy, PartialEq, Eq, Structural)]
pub enum PopupGrab {
    /// grab with this serial
    Grab(u32),
    /// a grab was asked for but there is no seat: the popup will not close
    /// on a click outside it
    NoSeat,
    /// no grab was asked for
    NoGrab,
}

/// The grab of a popup that asked for one with `serial`, given whether a
/// seat is at hand.
pub fn popup_grab(has_seat: bool, serial: Option<u32>) -> (r: PopupGrab)
    ensures
        r == match serial {
            Some(s) => if has_seat {
                PopupGrab::Grab(s)
            } else {
                PopupGrab::NoSeat
            },
            None => PopupGrab::NoGrab,
        },
{
    match serial {
        Some(s) => if has_seat {
            PopupGrab::Grab(s)
        } else {
            PopupGrab::NoSeat
        },
        None => PopupGrab::NoGrab,
    }
}

/// The token of the next `xdg_popup.reposition`: one after the pending
/// one, counting from 1 and wrapping around.
pub fn reposition_token(pending: Option<u32>) -> (r: u32)
    ensures
        r == match pending {
            Some(t) => if t == u32::MAX {
                0
            } else {
                (t + 1) as u32
            },
            None => 1,
        },
{
    let base: u32 = match pending {
        Some(t) => t,
        None => 0,
    };
    base.wrapping_add(1)
}

/// Whether a reposition request is carried out: the unit must be a popup,
/// and the compositor's `xdg_popup` must be version 3 or later.
pub fn can_reposition(shell: Option<WlShellType>, popup_version: u32) -> (r: bool)
    ensures
        r == (shell == Some(WlShellType::PopUp) && popup_version >= 3),
{
    match shell {
        Some(WlShellType::PopUp) => popup_version >= 3,
        _ => false,
    }
}

/// Whether the loop stops because its last unit closed: a program that
/// shows on every output or runs in the background keeps running.
pub fn should_stop(registry: &WindowRegistry, mode: &StartMode) -> (r: bool)
    ensures
        r == (registry.units@.len() == 0 && !(*mode is AllScreens) && !(*mode is Background)),
{
    registry.units.len() == 0 && !mode.is_allscreens() && !mode.is_background()
}

} // verus!
