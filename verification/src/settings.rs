//! The settings that new popups, xdg windows and input panels are made with.

use vstd::prelude::*;
use crate::geometry::{Position, Size};
use crate::unit_outputs::OutputOption;

verus! {

/// How a popup is placed relative to its parent surface.
#[derive(Debug, Clone, Copy, PartialEq, Eq)]
pub enum PopupPlacement {
    /// an anchor rectangle in the parent surface's coordinates
    Anchored {
        /// the top-left corner of the anchor rectangle
        position: Position<i32>,
        /// the extents of the anchor rectangle
        size: Size<u32>,
    },
    /// the popup's position in the parent surface's coordinates
    Position(Position<i32>),
}

/// The settings a new xdg toplevel window is made with.
#[derive(Debug, Clone, PartialEq, Eq, Default)]
pub struct NewXdgWindowSettings {
    /// the window title
    pub title: Option<String>,
    /// the initial window size
    pub size: Option<Size<u32>>,
    /// ask for client-side decorations instead of the server's
    pub client_side_decorations: bool,
}

/// The settings a new input-panel surface is made with.
#[derive(Debug, Clone, PartialEq, Eq)]
pub struct NewInputPanelSettings {
    pub size: Size<u32>,
    /// the surface is a keyboard, shown at the bottom of its output;
    /// otherwise an overlay panel
    pub keyboard: bool,
    /// the output the panel shows on
    pub output_option: OutputOption,
}

} // verus!
