//! Pointer cursors: the shapes of the cursor-shape protocol, their names,
//! and how a cursor request is carried out.

use vstd::prelude::*;
use crate::text::str_eq;

verus! {

/// A cursor shape of the `wp_cursor_shape_device_v1` protocol.
#[derive(Debug, Clone, Copy, PartialEq, Eq, Structural)]
pub enum CursorShape {
    Default,
    ContextMenu,
    Help,
    Pointer,
    Progress,
    Wait,
    Cell,
    Crosshair,
    Text,
    VerticalText,
    Alias,
    Copy,
    Move,
    NoDrop,
    NotAllowed,
    Grab,
    Grabbing,
    EResize,
    NResize,
    NeResize,
    NwResize,
    SResize,
    SeResize,
    SwResize,
    WResize,
    EwResize,
    NsResize,
    NeswResize,
    NwseResize,
    ColResize,
    RowResize,
    AllScroll,
    ZoomIn,
    ZoomOut,
    DndAsk,
    AllResize,
}

/// The protocol's wire value of a shape.
pub open spec fn shape_code(s: CursorShape) -> u32 {
    match s {
        CursorShape::Default => 1u32,
        CursorShape::ContextMenu => 2u32,
        CursorShape::Help => 3u32,
        CursorShape::Pointer => 4u32,
        CursorShape::Progress => 5u32,
        CursorShape::Wait => 6u32,
        CursorShape::Cell => 7u32,
        CursorShape::Crosshair => 8u32,
        CursorShape::Text => 9u32,
        CursorShape::VerticalText => 10u32,
        CursorShape::Alias => 11u32,
        CursorShape::Copy => 12u32,
        CursorShape::Move => 13u32,
        CursorShape::NoDrop => 14u32,
        CursorShape::NotAllowed => 15u32,
        CursorShape::Grab => 16u32,
        CursorShape::Grabbing => 17u32,
        CursorShape::EResize => 18u32,
        CursorShape::NResize => 19u32,
        CursorShape::NeResize => 20u32,
        CursorShape::NwResize => 21u32,
        CursorShape::SResize => 22u32,
        CursorShape::SeResize => 23u32,
        CursorShape::SwResize => 24u32,
        CursorShape::WResize => 25u32,
        CursorShape::EwResize => 26u32,
        CursorShape::NsResize => 27u32,
        CursorShape::NeswResize => 28u32,
        CursorShape::NwseResize => 29u32,
        CursorShape::ColResize => 30u32,
        CursorShape::RowResize => 31u32,
        CursorShape::AllScroll => 32u32,
        CursorShape::ZoomIn => 33u32,
        CursorShape::ZoomOut => 34u32,
        CursorShape::DndAsk => 35u32,
        CursorShape::AllResize => 36u32,
    }
}

/// The name [`ShapeName::name`] gives a shape.
pub open spec fn shape_name(s: CursorShape) -> Seq<char> {
    match s {
        CursorShape::Default => "default"@,
        CursorShape::ContextMenu => "contenx_menu"@,
        CursorShape::Help => "help"@,
        CursorShape::Pointer => "pointer"@,
        CursorShape::Progress => "progress"@,
        CursorShape::Wait => "wait"@,
        CursorShape::Cell => "cell"@,
        CursorShape::Crosshair => "crosshair"@,
        CursorShape::Text => "text"@,
        CursorShape::VerticalText => "vertical_text"@,
        CursorShape::Alias => "alias"@,
        CursorShape::Copy => "copy"@,
        CursorShape::Move => "move"@,
        CursorShape::NoDrop => "no_drop"@,
        CursorShape::NotAllowed => "not_allowed"@,
        CursorShape::Grab => "grab"@,
        CursorShape::Grabbing => "grabbing"@,
        CursorShape::EResize => "e_resize"@,
        CursorShape::NResize => "n_resize"@,
        CursorShape::NeResize => "default"@,
        CursorShape::NwResize => "nw_resize"@,
        CursorShape::SResize => "s_resize"@,
        CursorShape::SeResize => "se_resize"@,
        CursorShape::SwResize => "sw_resize"@,
        CursorShape::WResize => "w_resize"@,
        CursorShape::EwResize => "ew_resize"@,
        CursorShape::NsResize => "ns_resize"@,
        CursorShape::NeswResize => "nesw_resize"@,
        CursorShape::NwseResize => "nesw_resize"@,
        CursorShape::ColResize => "col_resize"@,
        CursorShape::RowResize => "row_resize"@,
        CursorShape::AllScroll => "all_scroll"@,
        CursorShape::ZoomIn => "zoom_in"@,
        CursorShape::ZoomOut => "zoom_out"@,
        CursorShape::DndAsk => "default"@,
        CursorShape::AllResize => "default"@,
    }
}

/// The shape [`str_to_shape`] reads from a name.
pub open spec fn shape_of_name(name: Seq<char>) -> Option<CursorShape> {
    if name == "default"@ {
        Some(CursorShape::Default)
    } else if name == "contenx_menu"@ {
        Some(CursorShape::ContextMenu)
    } else if name == "help"@ {
        Some(CursorShape::Help)
    } else if name == "pointer"@ {
        Some(CursorShape::Pointer)
    } else if name == "progress"@ {
        Some(CursorShape::Progress)
    } else if name == "wait"@ {
        Some(CursorShape::Wait)
    } else if name == "cell"@ {
        Some(CursorShape::Cell)
    } else if name == "crosshair"@ {
        Some(CursorShape::Crosshair)
    } else if name == "text"@ {
        Some(CursorShape::Text)
    } else if name == "vertical_text"@ {
        Some(CursorShape::VerticalText)
    } else if name == "alias"@ {
        Some(CursorShape::Alias)
    } else if name == "copy"@ {
        Some(CursorShape::Copy)
    } else if name == "move"@ {
        Some(CursorShape::Move)
    } else if name == "no_drop"@ {
        Some(CursorShape::NoDrop)
    } else if name == "not_allowed"@ {
        Some(CursorShape::NotAllowed)
    } else if name == "grab"@ {
        Some(CursorShape::Grab)
    } else if name == "grabbing"@ {
        Some(CursorShape::Grabbing)
    } else if name == "e_resize"@ {
        Some(CursorShape::EResize)
    } else if name == "n_resize"@ {
        Some(CursorShape::NResize)
    } else if name == "ne_resize"@ {
        Some(CursorShape::NeResize)
    } else if name == "nw_resize"@ {
        Some(CursorShape::NwResize)
    } else if name == "s_resize"@ {
        Some(CursorShape::SResize)
    } else if name == "se_resize"@ {
        Some(CursorShape::SeResize)
    } else if name == "sw_resize"@ {
        Some(CursorShape::SwResize)
    } else if name == "w_resize"@ {
        Some(CursorShape::WResize)
    } else if name == "ew_resize"@ {
        Some(CursorShape::EwResize)
    } else if name == "ns_resize"@ {
        Some(CursorShape::NsResize)
    } else if name == "nesw_resize"@ {
        Some(CursorShape::NeswResize)
    } else if name == "nwse_resize"@ {
        Some(CursorShape::NwseResize)
    } else if name == "col_resize"@ {
        Some(CursorShape::ColResize)
    } else if name == "row_resize"@ {
        Some(CursorShape::RowResize)
    } else if name == "all_scroll"@ {
        Some(CursorShape::AllScroll)
    } else if name == "zoom_in"@ {
        Some(CursorShape::ZoomIn)
    } else if name == "zoom_out"@ {
        Some(CursorShape::ZoomOut)
    } else {
        None
    }
}

/// The Xcursor theme name of a shape, used where the compositor lacks the
/// cursor-shape protocol.
pub open spec fn theme_name(s: CursorShape) -> Seq<char> {
    match s {
        CursorShape::Default => "default"@,
        CursorShape::ContextMenu => "context-menu"@,
        CursorShape::Help => "help"@,
        CursorShape::Pointer => "pointer"@,
        CursorShape::Progress => "progress"@,
        CursorShape::Wait => "wait"@,
        CursorShape::Cell => "cell"@,
        CursorShape::Crosshair => "crosshair"@,
        CursorShape::Text => "text"@,
        CursorShape::VerticalText => "vertical-text"@,
        CursorShape::Alias => "alias"@,
        CursorShape::Copy => "copy"@,
        CursorShape::Move => "move"@,
        CursorShape::NoDrop => "no-drop"@,
        CursorShape::NotAllowed => "not-allowed"@,
        CursorShape::Grab => "grab"@,
        CursorShape::Grabbing => "grabbing"@,
        CursorShape::EResize => "e-resize"@,
        CursorShape::NResize => "n-resize"@,
        CursorShape::NeResize => "ne-resize"@,
        CursorShape::NwResize => "nw-resize"@,
        CursorShape::SResize => "s-resize"@,
        CursorShape::SeResize => "se-resize"@,
        CursorShape::SwResize => "sw-resize"@,
        CursorShape::WResize => "w-resize"@,
        CursorShape::EwResize => "ew-resize"@,
        CursorShape::NsResize => "ns-resize"@,
        CursorShape::NeswResize => "nesw-resize"@,
        CursorShape::NwseResize => "nwse-resize"@,
        CursorShape::ColResize => "col-resize"@,
        CursorShape::RowResize => "row-resize"@,
        CursorShape::AllScroll => "all-scroll"@,
        CursorShape::ZoomIn => "zoom-in"@,
        CursorShape::ZoomOut => "zoom-out"@,
        CursorShape::DndAsk => "dnd-ask"@,
        CursorShape::AllResize => "all-resize"@,
    }
}

/// The cursor-shape protocol version that first has a shape.
pub open spec fn required_version(s: CursorShape) -> u32 {
    match s {
        CursorShape::DndAsk | CursorShape::AllResize => 2,
        _ => 1,
    }
}

impl CursorShape {
    /// The protocol's wire value of the shape.
    pub fn code(self) -> (r: u32)
        ensures
            r == shape_code(self),
    {
        match self {
            CursorShape::Default => 1,
            CursorShape::ContextMenu => 2,
            CursorShape::Help => 3,
            CursorShape::Pointer => 4,
            CursorShape::Progress => 5,
            CursorShape::Wait => 6,
            CursorShape::Cell => 7,
            CursorShape::Crosshair => 8,
            CursorShape::Text => 9,
            CursorShape::VerticalText => 10,
            CursorShape::Alias => 11,
            CursorShape::Copy => 12,
            CursorShape::Move => 13,
            CursorShape::NoDrop => 14,
            CursorShape::NotAllowed => 15,
            CursorShape::Grab => 16,
            CursorShape::Grabbing => 17,
            CursorShape::EResize => 18,
            CursorShape::NResize => 19,
            CursorShape::NeResize => 20,
            CursorShape::NwResize => 21,
            CursorShape::SResize => 22,
            CursorShape::SeResize => 23,
            CursorShape::SwResize => 24,
            CursorShape::WResize => 25,
            CursorShape::EwResize => 26,
            CursorShape::NsResize => 27,
            CursorShape::NeswResize => 28,
            CursorShape::NwseResize => 29,
            CursorShape::ColResize => 30,
            CursorShape::RowResize => 31,
            CursorShape::AllScroll => 32,
            CursorShape::ZoomIn => 33,
            CursorShape::ZoomOut => 34,
            CursorShape::DndAsk => 35,
            CursorShape::AllResize => 36,
        }
    }

    /// The Xcursor theme name of the shape.
    pub fn theme_name(self) -> (r: &'static str)
        ensures
            r@ == theme_name(self),
    {
        match self {
            CursorShape::Default => "default",
            CursorShape::ContextMenu => "context-menu",
            CursorShape::Help => "help",
            CursorShape::Pointer => "pointer",
            CursorShape::Progress => "progress",
            CursorShape::Wait => "wait",
            CursorShape::Cell => "cell",
            CursorShape::Crosshair => "crosshair",
            CursorShape::Text => "text",
            CursorShape::VerticalText => "vertical-text",
            CursorShape::Alias => "alias",
            CursorShape::Copy => "copy",
            CursorShape::Move => "move",
            CursorShape::NoDrop => "no-drop",
            CursorShape::NotAllowed => "not-allowed",
            CursorShape::Grab => "grab",
            CursorShape::Grabbing => "grabbing",
            CursorShape::EResize => "e-resize",
            CursorShape::NResize => "n-resize",
            CursorShape::NeResize => "ne-resize",
            CursorShape::NwResize => "nw-resize",
            CursorShape::SResize => "s-resize",
            CursorShape::SeResize => "se-resize",
            CursorShape::SwResize => "sw-resize",
            CursorShape::WResize => "w-resize",
            CursorShape::EwResize => "ew-resize",
            CursorShape::NsResize => "ns-resize",
            CursorShape::NeswResize => "nesw-resize",
            CursorShape::NwseResize => "nwse-resize",
            CursorShape::ColResize => "col-resize",
            CursorShape::RowResize => "row-resize",
            CursorShape::AllScroll => "all-scroll",
            CursorShape::ZoomIn => "zoom-in",
            CursorShape::ZoomOut => "zoom-out",
            CursorShape::DndAsk => "dnd-ask",
            CursorShape::AllResize => "all-resize",
        }
    }

    /// The cursor-shape protocol version that first has the shape.
    pub fn required_version(self) -> (r: u32)
        ensures
            r == required_version(self),
    {
        match self {
            CursorShape::DndAsk | CursorShape::AllResize => 2,
            _ => 1,
        }
    }
}

/// A name for each cursor shape.
pub trait ShapeName {
    /// The shape's name.
    fn name(&self) -> &str;
}

impl ShapeName for CursorShape {
    fn name(&self) -> (r: &str)
        ensures
            r@ == shape_name(*self),
    {
        match self {
            CursorShape::Default => "default",
            CursorShape::ContextMenu => "contenx_menu",
            CursorShape::Help => "help",
            CursorShape::Pointer => "pointer",
            CursorShape::Progress => "progress",
            CursorShape::Wait => "wait",
            CursorShape::Cell => "cell",
            CursorShape::Crosshair => "crosshair",
            CursorShape::Text => "text",
            CursorShape::VerticalText => "vertical_text",
            CursorShape::Alias => "alias",
            CursorShape::Copy => "copy",
            CursorShape::Move => "move",
            CursorShape::NoDrop => "no_drop",
            CursorShape::NotAllowed => "not_allowed",
            CursorShape::Grab => "grab",
            CursorShape::Grabbing => "grabbing",
            CursorShape::EResize => "e_resize",
            CursorShape::NResize => "n_resize",
            CursorShape::NeResize => "default",
            CursorShape::NwResize => "nw_resize",
            CursorShape::SResize => "s_resize",
            CursorShape::SeResize => "se_resize",
            CursorShape::SwResize => "sw_resize",
            CursorShape::WResize => "w_resize",
            CursorShape::EwResize => "ew_resize",
            CursorShape::NsResize => "ns_resize",
            CursorShape::NeswResize => "nesw_resize",
            CursorShape::NwseResize => "nesw_resize",
            CursorShape::ColResize => "col_resize",
            CursorShape::RowResize => "row_resize",
            CursorShape::AllScroll => "all_scroll",
            CursorShape::ZoomIn => "zoom_in",
            CursorShape::ZoomOut => "zoom_out",
            CursorShape::DndAsk => "default",
            CursorShape::AllResize => "default",
        }
    }
}

/// The cursor shape named `shape_name`, as [`ShapeName::name`] spells the
/// names.
pub fn str_to_shape(shape_name: &str) -> (r: Option<CursorShape>)
    ensures
        r == shape_of_name(shape_name@),
{
    if str_eq(shape_name, "default") {
        return Some(CursorShape::Default);
    }
    if str_eq(shape_name, "contenx_menu") {
        return Some(CursorShape::ContextMenu);
    }
    if str_eq(shape_name, "help") {
        return Some(CursorShape::Help);
    }
    if str_eq(shape_name, "pointer") {
        return Some(CursorShape::Pointer);
    }
    if str_eq(shape_name, "progress") {
        return Some(CursorShape::Progress);
    }
    if str_eq(shape_name, "wait") {
        return Some(CursorShape::Wait);
    }
    if str_eq(shape_name, "cell") {
        return Some(CursorShape::Cell);
    }
    if str_eq(shape_name, "crosshair") {
        return Some(CursorShape::Crosshair);
    }
    if str_eq(shape_name, "text") {
        return Some(CursorShape::Text);
    }
    if str_eq(shape_name, "vertical_text") {
        return Some(CursorShape::VerticalText);
    }
    if str_eq(shape_name, "alias") {
        return Some(CursorShape::Alias);
    }
    if str_eq(shape_name, "copy") {
        return Some(CursorShape::Copy);
    }
    if str_eq(shape_name, "move") {
        return Some(CursorShape::Move);
    }
    if str_eq(shape_name, "no_drop") {
        return Some(CursorShape::NoDrop);
    }
    if str_eq(shape_name, "not_allowed") {
        return Some(CursorShape::NotAllowed);
    }
    if str_eq(shape_name, "grab") {
        return Some(CursorShape::Grab);
    }
    if str_eq(shape_name, "grabbing") {
        return Some(CursorShape::Grabbing);
    }
    if str_eq(shape_name, "e_resize") {
        return Some(CursorShape::EResize);
    }
    if str_eq(shape_name, "n_resize") {
        return Some(CursorShape::NResize);
    }
    if str_eq(shape_name, "ne_resize") {
        return Some(CursorShape::NeResize);
    }
    if str_eq(shape_name, "nw_resize") {
        return Some(CursorShape::NwResize);
    }
    if str_eq(shape_name, "s_resize") {
        return Some(CursorShape::SResize);
    }
    if str_eq(shape_name, "se_resize") {
        return Some(CursorShape::SeResize);
    }
    if str_eq(shape_name, "sw_resize") {
        return Some(CursorShape::SwResize);
    }
    if str_eq(shape_name, "w_resize") {
        return Some(CursorShape::WResize);
    }
    if str_eq(shape_name, "ew_resize") {
        return Some(CursorShape::EwResize);
    }
    if str_eq(shape_name, "ns_resize") {
        return Some(CursorShape::NsResize);
    }
    if str_eq(shape_name, "nesw_resize") {
        return Some(CursorShape::NeswResize);
    }
    if str_eq(shape_name, "nwse_resize") {
        return Some(CursorShape::NwseResize);
    }
    if str_eq(shape_name, "col_resize") {
        return Some(CursorShape::ColResize);
    }
    if str_eq(shape_name, "row_resize") {
        return Some(CursorShape::RowResize);
    }
    if str_eq(shape_name, "all_scroll") {
        return Some(CursorShape::AllScroll);
    }
    if str_eq(shape_name, "zoom_in") {
        return Some(CursorShape::ZoomIn);
    }
    if str_eq(shape_name, "zoom_out") {
        return Some(CursorShape::ZoomOut);
    }
    None
}

/// The lengths of the names, and that names of equal length differ.
proof fn lemma_name_literals()
    ensures
        "default"@.len() == 7,
        "contenx_menu"@.len() == 12,
        "help"@.len() == 4,
        "pointer"@.len() == 7,
        "progress"@.len() == 8,
        "wait"@.len() == 4,
        "cell"@.len() == 4,
        "crosshair"@.len() == 9,
        "text"@.len() == 4,
        "vertical_text"@.len() == 13,
        "alias"@.len() == 5,
        "copy"@.len() == 4,
        "move"@.len() == 4,
        "no_drop"@.len() == 7,
        "not_allowed"@.len() == 11,
        "grab"@.len() == 4,
        "grabbing"@.len() == 8,
        "e_resize"@.len() == 8,
        "n_resize"@.len() == 8,
        "ne_resize"@.len() == 9,
        "nw_resize"@.len() == 9,
        "s_resize"@.len() == 8,
        "se_resize"@.len() == 9,
        "sw_resize"@.len() == 9,
        "w_resize"@.len() == 8,
        "ew_resize"@.len() == 9,
        "ns_resize"@.len() == 9,
        "nesw_resize"@.len() == 11,
        "nwse_resize"@.len() == 11,
        "col_resize"@.len() == 10,
        "row_resize"@.len() == 10,
        "all_scroll"@.len() == 10,
        "zoom_in"@.len() == 7,
        "zoom_out"@.len() == 8,
        "default"@ != "pointer"@,
        "default"@ != "no_drop"@,
        "default"@ != "zoom_in"@,
        "help"@ != "wait"@,
        "help"@ != "cell"@,
        "help"@ != "text"@,
        "help"@ != "copy"@,
        "help"@ != "move"@,
        "help"@ != "grab"@,
        "pointer"@ != "no_drop"@,
        "pointer"@ != "zoom_in"@,
        "progress"@ != "grabbing"@,
        "progress"@ != "e_resize"@,
        "progress"@ != "n_resize"@,
        "progress"@ != "s_resize"@,
        "progress"@ != "w_resize"@,
        "progress"@ != "zoom_out"@,
        "wait"@ != "cell"@,
        "wait"@ != "text"@,
        "wait"@ != "copy"@,
        "wait"@ != "move"@,
        "wait"@ != "grab"@,
        "cell"@ != "text"@,
        "cell"@ != "copy"@,
        "cell"@ != "move"@,
        "cell"@ != "grab"@,
        "crosshair"@ != "ne_resize"@,
        "crosshair"@ != "nw_resize"@,
        "crosshair"@ != "se_resize"@,
        "crosshair"@ != "sw_resize"@,
        "crosshair"@ != "ew_resize"@,
        "crosshair"@ != "ns_resize"@,
        "text"@ != "copy"@,
        "text"@ != "move"@,
        "text"@ != "grab"@,
        "copy"@ != "move"@,
        "copy"@ != "grab"@,
        "move"@ != "grab"@,
        "no_drop"@ != "zoom_in"@,
        "not_allowed"@ != "nesw_resize"@,
        "not_allowed"@ != "nwse_resize"@,
        "grabbing"@ != "e_resize"@,
        "grabbing"@ != "n_resize"@,
        "grabbing"@ != "s_resize"@,
        "grabbing"@ != "w_resize"@,
        "grabbing"@ != "zoom_out"@,
        "e_resize"@ != "n_resize"@,
        "e_resize"@ != "s_resize"@,
        "e_resize"@ != "w_resize"@,
        "e_resize"@ != "zoom_out"@,
        "n_resize"@ != "s_resize"@,
        "n_resize"@ != "w_resize"@,
        "n_resize"@ != "zoom_out"@,
        "ne_resize"@ != "nw_resize"@,
        "ne_resize"@ != "se_resize"@,
        "ne_resize"@ != "sw_resize"@,
        "ne_resize"@ != "ew_resize"@,
        "ne_resize"@ != "ns_resize"@,
        "nw_resize"@ != "se_resize"@,
        "nw_resize"@ != "sw_resize"@,
        "nw_resize"@ != "ew_resize"@,
        "nw_resize"@ != "ns_resize"@,
        "s_resize"@ != "w_resize"@,
        "s_resize"@ != "zoom_out"@,
        "se_resize"@ != "sw_resize"@,
        "se_resize"@ != "ew_resize"@,
        "se_resize"@ != "ns_resize"@,
        "sw_resize"@ != "ew_resize"@,
        "sw_resize"@ != "ns_resize"@,
        "w_resize"@ != "zoom_out"@,
        "ew_resize"@ != "ns_resize"@,
        "nesw_resize"@ != "nwse_resize"@,
        "col_resize"@ != "row_resize"@,
        "col_resize"@ != "all_scroll"@,
        "row_resize"@ != "all_scroll"@,
{
    reveal_strlit("default");
    reveal_strlit("contenx_menu");
    reveal_strlit("help");
    reveal_strlit("pointer");
    reveal_strlit("progress");
    reveal_strlit("wait");
    reveal_strlit("cell");
    reveal_strlit("crosshair");
    reveal_strlit("text");
    reveal_strlit("vertical_text");
    reveal_strlit("alias");
    reveal_strlit("copy");
    reveal_strlit("move");
    reveal_strlit("no_drop");
    reveal_strlit("not_allowed");
    reveal_strlit("grab");
    reveal_strlit("grabbing");
    reveal_strlit("e_resize");
    reveal_strlit("n_resize");
    reveal_strlit("ne_resize");
    reveal_strlit("nw_resize");
    reveal_strlit("s_resize");
    reveal_strlit("se_resize");
    reveal_strlit("sw_resize");
    reveal_strlit("w_resize");
    reveal_strlit("ew_resize");
    reveal_strlit("ns_resize");
    reveal_strlit("nesw_resize");
    reveal_strlit("nwse_resize");
    reveal_strlit("col_resize");
    reveal_strlit("row_resize");
    reveal_strlit("all_scroll");
    reveal_strlit("zoom_in");
    reveal_strlit("zoom_out");
    assert("default"@[0] != "pointer"@[0]);
    assert("default"@[0] != "no_drop"@[0]);
    assert("default"@[0] != "zoom_in"@[0]);
    assert("help"@[0] != "wait"@[0]);
    assert("help"@[0] != "cell"@[0]);
    assert("help"@[0] != "text"@[0]);
    assert("help"@[0] != "copy"@[0]);
    assert("help"@[0] != "move"@[0]);
    assert("help"@[0] != "grab"@[0]);
    assert("pointer"@[0] != "no_drop"@[0]);
    assert("pointer"@[0] != "zoom_in"@[0]);
    assert("progress"@[0] != "grabbing"@[0]);
    assert("progress"@[0] != "e_resize"@[0]);
    assert("progress"@[0] != "n_resize"@[0]);
    assert("progress"@[0] != "s_resize"@[0]);
    assert("progress"@[0] != "w_resize"@[0]);
    assert("progress"@[0] != "zoom_out"@[0]);
    assert("wait"@[0] != "cell"@[0]);
    assert("wait"@[0] != "text"@[0]);
    assert("wait"@[0] != "copy"@[0]);
    assert("wait"@[0] != "move"@[0]);
    assert("wait"@[0] != "grab"@[0]);
    assert("cell"@[0] != "text"@[0]);
    assert("cell"@[1] != "copy"@[1]);
    assert("cell"@[0] != "move"@[0]);
    assert("cell"@[0] != "grab"@[0]);
    assert("crosshair"@[0] != "ne_resize"@[0]);
    assert("crosshair"@[0] != "nw_resize"@[0]);
    assert("crosshair"@[0] != "se_resize"@[0]);
    assert("crosshair"@[0] != "sw_resize"@[0]);
    assert("crosshair"@[0] != "ew_resize"@[0]);
    assert("crosshair"@[0] != "ns_resize"@[0]);
    assert("text"@[0] != "copy"@[0]);
    assert("text"@[0] != "move"@[0]);
    assert("text"@[0] != "grab"@[0]);
    assert("copy"@[0] != "move"@[0]);
    assert("copy"@[0] != "grab"@[0]);
    assert("move"@[0] != "grab"@[0]);
    assert("no_drop"@[0] != "zoom_in"@[0]);
    assert("not_allowed"@[1] != "nesw_resize"@[1]);
    assert("not_allowed"@[1] != "nwse_resize"@[1]);
    assert("grabbing"@[0] != "e_resize"@[0]);
    assert("grabbing"@[0] != "n_resize"@[0]);
    assert("grabbing"@[0] != "s_resize"@[0]);
    assert("grabbing"@[0] != "w_resize"@[0]);
    assert("grabbing"@[0] != "zoom_out"@[0]);
    assert("e_resize"@[0] != "n_resize"@[0]);
    assert("e_resize"@[0] != "s_resize"@[0]);
    assert("e_resize"@[0] != "w_resize"@[0]);
    assert("e_resize"@[0] != "zoom_out"@[0]);
    assert("n_resize"@[0] != "s_resize"@[0]);
    assert("n_resize"@[0] != "w_resize"@[0]);
    assert("n_resize"@[0] != "zoom_out"@[0]);
    assert("ne_resize"@[1] != "nw_resize"@[1]);
    assert("ne_resize"@[0] != "se_resize"@[0]);
    assert("ne_resize"@[0] != "sw_resize"@[0]);
    assert("ne_resize"@[0] != "ew_resize"@[0]);
    assert("ne_resize"@[1] != "ns_resize"@[1]);
    assert("nw_resize"@[0] != "se_resize"@[0]);
    assert("nw_resize"@[0] != "sw_resize"@[0]);
    assert("nw_resize"@[0] != "ew_resize"@[0]);
    assert("nw_resize"@[1] != "ns_resize"@[1]);
    assert("s_resize"@[0] != "w_resize"@[0]);
    assert("s_resize"@[0] != "zoom_out"@[0]);
    assert("se_resize"@[1] != "sw_resize"@[1]);
    assert("se_resize"@[0] != "ew_resize"@[0]);
    assert("se_resize"@[0] != "ns_resize"@[0]);
    assert("sw_resize"@[0] != "ew_resize"@[0]);
    assert("sw_resize"@[0] != "ns_resize"@[0]);
    assert("w_resize"@[0] != "zoom_out"@[0]);
    assert("ew_resize"@[0] != "ns_resize"@[0]);
    assert("nesw_resize"@[1] != "nwse_resize"@[1]);
    assert("col_resize"@[0] != "row_resize"@[0]);
    assert("col_resize"@[0] != "all_scroll"@[0]);
    assert("row_resize"@[0] != "all_scroll"@[0]);
}

/// Every shape but four reads back from its name. `NeResize`, `DndAsk` and
/// `AllResize` are named `default`, and `NwseResize` is named
/// `nesw_resize`.
pub proof fn lemma_shape_name_round_trip(s: CursorShape)
    requires
        s != CursorShape::NeResize,
        s != CursorShape::NwseResize,
        s != CursorShape::DndAsk,
        s != CursorShape::AllResize,
    ensures
        shape_of_name(shape_name(s)) == Some(s),
{
    lemma_name_literals();
    match s {
        CursorShape::Default => {},
        CursorShape::ContextMenu => {},
        CursorShape::Help => {},
        CursorShape::Pointer => {},
        CursorShape::Progress => {},
        CursorShape::Wait => {},
        CursorShape::Cell => {},
        CursorShape::Crosshair => {},
        CursorShape::Text => {},
        CursorShape::VerticalText => {},
        CursorShape::Alias => {},
        CursorShape::Copy => {},
        CursorShape::Move => {},
        CursorShape::NoDrop => {},
        CursorShape::NotAllowed => {},
        CursorShape::Grab => {},
        CursorShape::Grabbing => {},
        CursorShape::EResize => {},
        CursorShape::NResize => {},
        CursorShape::NeResize => {},
        CursorShape::NwResize => {},
        CursorShape::SResize => {},
        CursorShape::SeResize => {},
        CursorShape::SwResize => {},
        CursorShape::WResize => {},
        CursorShape::EwResize => {},
        CursorShape::NsResize => {},
        CursorShape::NeswResize => {},
        CursorShape::NwseResize => {},
        CursorShape::ColResize => {},
        CursorShape::RowResize => {},
        CursorShape::AllScroll => {},
        CursorShape::ZoomIn => {},
        CursorShape::ZoomOut => {},
        CursorShape::DndAsk => {},
        CursorShape::AllResize => {},
    }
}

/// What a cursor request asks for.
#[derive(Debug, Clone, PartialEq, Eq)]
pub enum Cursor {
    /// a shape of the cursor-shape protocol, with the matching theme
    /// cursor where the protocol is missing
    Shape(CursorShape),
    /// an Xcursor by its exact name, even where the protocol is there
    ThemeName(String),
}

/// How a cursor request is carried out.
#[derive(Debug, Clone, PartialEq, Eq)]
pub enum CursorAction {
    /// set the shape through the cursor-shape protocol
    SetShape(CursorShape),
    /// load this cursor from the Xcursor theme and attach it
    LoadTheme(String),
}

/// How to carry out `cursor`, given the version of the compositor's
/// cursor-shape manager, if it has one: the protocol is used for a shape
/// when the manager is recent enough for it, the theme otherwise.
pub fn cursor_action(cursor: Cursor, manager_version: Option<u32>) -> (r: CursorAction)
    ensures
        match cursor {
            Cursor::Shape(s) => if manager_version matches Some(v) && v >= required_version(s) {
                r == CursorAction::SetShape(s)
            } else {
                r matches CursorAction::LoadTheme(n) && n@ == theme_name(s)
            },
            Cursor::ThemeName(n) => r matches CursorAction::LoadTheme(m) && m@ == n@,
        },
{
    match cursor {
        Cursor::Shape(s) => {
            let usable = match manager_version {
                Some(v) => v >= s.required_version(),
                None => false,
            };
            if usable {
                CursorAction::SetShape(s)
            } else {
                CursorAction::LoadTheme(s.theme_name().to_owned())
            }
        },
        Cursor::ThemeName(n) => CursorAction::LoadTheme(n),
    }
}

/// The pointer interactions a widget toolkit asks the cursor for.
#[derive(Debug, Clone, Copy, PartialEq, Eq, Structural)]
pub enum Interaction {
    Nothing,
    Idle,
    Hidden,
    ContextMenu,
    Help,
    Pointer,
    Progress,
    Wait,
    Cell,
    Crosshair,
    Text,
    Alias,
    Copy,
    Move,
    NoDrop,
    NotAllowed,
    Grab,
    Grabbing,
    ResizingHorizontally,
    ResizingVertically,
    ResizingDiagonallyUp,
    ResizingDiagonallyDown,
    ResizingColumn,
    ResizingRow,
    AllScroll,
    ZoomIn,
    ZoomOut,
}

/// The shape shown for an interaction.
pub open spec fn interaction_shape_spec(i: Interaction) -> CursorShape {
    match i {
        Interaction::Nothing => CursorShape::Default,
        Interaction::Idle => CursorShape::Default,
        Interaction::Hidden => CursorShape::Default,
        Interaction::ContextMenu => CursorShape::ContextMenu,
        Interaction::Help => CursorShape::Help,
        Interaction::Pointer => CursorShape::Pointer,
        Interaction::Progress => CursorShape::Progress,
        Interaction::Wait => CursorShape::Wait,
        Interaction::Cell => CursorShape::Cell,
        Interaction::Crosshair => CursorShape::Crosshair,
        Interaction::Text => CursorShape::Text,
        Interaction::Alias => CursorShape::Alias,
        Interaction::Copy => CursorShape::Copy,
        Interaction::Move => CursorShape::Move,
        Interaction::NoDrop => CursorShape::NoDrop,
        Interaction::NotAllowed => CursorShape::NotAllowed,
        Interaction::Grab => CursorShape::Grab,
        Interaction::Grabbing => CursorShape::Grabbing,
        Interaction::ResizingHorizontally => CursorShape::EwResize,
        Interaction::ResizingVertically => CursorShape::NsResize,
        Interaction::ResizingDiagonallyUp => CursorShape::NeswResize,
        Interaction::ResizingDiagonallyDown => CursorShape::NwseResize,
        Interaction::ResizingColumn => CursorShape::ColResize,
        Interaction::ResizingRow => CursorShape::RowResize,
        Interaction::AllScroll => CursorShape::AllScroll,
        Interaction::ZoomIn => CursorShape::ZoomIn,
        Interaction::ZoomOut => CursorShape::ZoomOut,
    }
}

/// The shape whose name the name-based cursor path shows for an
/// interaction.
pub open spec fn interaction_name_shape(i: Interaction) -> CursorShape {
    match i {
        Interaction::Nothing => CursorShape::Default,
        Interaction::Idle => CursorShape::Wait,
        Interaction::Hidden => CursorShape::Default,
        Interaction::ContextMenu => CursorShape::Default,
        Interaction::Help => CursorShape::Help,
        Interaction::Pointer => CursorShape::Pointer,
        Interaction::Progress => CursorShape::Default,
        Interaction::Wait => CursorShape::Wait,
        Interaction::Cell => CursorShape::Cell,
        Interaction::Crosshair => CursorShape::Crosshair,
        Interaction::Text => CursorShape::Text,
        Interaction::Alias => CursorShape::Default,
        Interaction::Copy => CursorShape::Copy,
        Interaction::Move => CursorShape::Move,
        Interaction::NoDrop => CursorShape::Default,
        Interaction::NotAllowed => CursorShape::NotAllowed,
        Interaction::Grab => CursorShape::Grab,
        Interaction::Grabbing => CursorShape::Grabbing,
        Interaction::ResizingHorizontally => CursorShape::EwResize,
        Interaction::ResizingVertically => CursorShape::NsResize,
        Interaction::ResizingDiagonallyUp => CursorShape::NwseResize,
        Interaction::ResizingDiagonallyDown => CursorShape::NwseResize,
        Interaction::ResizingColumn => CursorShape::Default,
        Interaction::ResizingRow => CursorShape::Default,
        Interaction::AllScroll => CursorShape::Default,
        Interaction::ZoomIn => CursorShape::ZoomIn,
        Interaction::ZoomOut => CursorShape::ZoomOut,
    }
}

/// Only the interactions that show nothing in particular (none, idle,
/// hidden) show the default arrow; every other interaction shows a cursor
/// of its own, no two the same.
pub proof fn lemma_interaction_shapes_distinct(i: Interaction, j: Interaction)
    ensures
        interaction_shape_spec(i) == CursorShape::Default <==> (i == Interaction::Nothing || i
            == Interaction::Idle || i == Interaction::Hidden),
        interaction_shape_spec(i) == interaction_shape_spec(j) && interaction_shape_spec(i)
            != CursorShape::Default ==> i == j,
{
}

/// The shape path and the name path of the cursor agree wherever the name
/// path shows a cursor of its own, but for the idle interaction (the name
/// path shows it busy) and the upward diagonal resize (the name path shows
/// the downward one).
pub proof fn lemma_shape_and_name_paths_agree(i: Interaction)
    requires
        i != Interaction::Idle,
        i != Interaction::ResizingDiagonallyUp,
        interaction_name_shape(i) != CursorShape::Default,
    ensures
        interaction_shape_spec(i) == interaction_name_shape(i),
{
}

/// Each interaction that has a cursor shape of the same kind shows it: the
/// pointer hand over what can be clicked, the text beam over text, the
/// resize arrows along the axis being resized, and so on.
pub proof fn lemma_interaction_shows_its_shape()
    ensures
        interaction_shape_spec(Interaction::ContextMenu) == CursorShape::ContextMenu,
        interaction_shape_spec(Interaction::Help) == CursorShape::Help,
        interaction_shape_spec(Interaction::Pointer) == CursorShape::Pointer,
        interaction_shape_spec(Interaction::Progress) == CursorShape::Progress,
        interaction_shape_spec(Interaction::Wait) == CursorShape::Wait,
        interaction_shape_spec(Interaction::Cell) == CursorShape::Cell,
        interaction_shape_spec(Interaction::Crosshair) == CursorShape::Crosshair,
        interaction_shape_spec(Interaction::Text) == CursorShape::Text,
        interaction_shape_spec(Interaction::Alias) == CursorShape::Alias,
        interaction_shape_spec(Interaction::Copy) == CursorShape::Copy,
        interaction_shape_spec(Interaction::Move) == CursorShape::Move,
        interaction_shape_spec(Interaction::NoDrop) == CursorShape::NoDrop,
        interaction_shape_spec(Interaction::NotAllowed) == CursorShape::NotAllowed,
        interaction_shape_spec(Interaction::Grab) == CursorShape::Grab,
        interaction_shape_spec(Interaction::Grabbing) == CursorShape::Grabbing,
        interaction_shape_spec(Interaction::ResizingHorizontally) == CursorShape::EwResize,
        interaction_shape_spec(Interaction::ResizingVertically) == CursorShape::NsResize,
        interaction_shape_spec(Interaction::ResizingDiagonallyUp) == CursorShape::NeswResize,
        interaction_shape_spec(Interaction::ResizingDiagonallyDown) == CursorShape::NwseResize,
        interaction_shape_spec(Interaction::ResizingColumn) == CursorShape::ColResize,
        interaction_shape_spec(Interaction::ResizingRow) == CursorShape::RowResize,
        interaction_shape_spec(Interaction::AllScroll) == CursorShape::AllScroll,
        interaction_shape_spec(Interaction::ZoomIn) == CursorShape::ZoomIn,
        interaction_shape_spec(Interaction::ZoomOut) == CursorShape::ZoomOut,
{
}

/// The cursor shape for a widget interaction.
pub fn mouse_interaction(interaction: Interaction) -> (r: CursorShape)
    ensures
        r == interaction_shape_spec(interaction),
{
    match interaction {
        Interaction::Nothing => CursorShape::Default,
        Interaction::Idle => CursorShape::Default,
        Interaction::Hidden => CursorShape::Default,
        Interaction::ContextMenu => CursorShape::ContextMenu,
        Interaction::Help => CursorShape::Help,
        Interaction::Pointer => CursorShape::Pointer,
        Interaction::Progress => CursorShape::Progress,
        Interaction::Wait => CursorShape::Wait,
        Interaction::Cell => CursorShape::Cell,
        Interaction::Crosshair => CursorShape::Crosshair,
        Interaction::Text => CursorShape::Text,
        Interaction::Alias => CursorShape::Alias,
        Interaction::Copy => CursorShape::Copy,
        Interaction::Move => CursorShape::Move,
        Interaction::NoDrop => CursorShape::NoDrop,
        Interaction::NotAllowed => CursorShape::NotAllowed,
        Interaction::Grab => CursorShape::Grab,
        Interaction::Grabbing => CursorShape::Grabbing,
        Interaction::ResizingHorizontally => CursorShape::EwResize,
        Interaction::ResizingVertically => CursorShape::NsResize,
        Interaction::ResizingDiagonallyUp => CursorShape::NeswResize,
        Interaction::ResizingDiagonallyDown => CursorShape::NwseResize,
        Interaction::ResizingColumn => CursorShape::ColResize,
        Interaction::ResizingRow => CursorShape::RowResize,
        Interaction::AllScroll => CursorShape::AllScroll,
        Interaction::ZoomIn => CursorShape::ZoomIn,
        Interaction::ZoomOut => CursorShape::ZoomOut,
    }
}

/// The cursor name for a widget interaction, as [`ShapeName::name`] names
/// the shape shown for it.
pub fn mouse_interaction_name(interaction: Interaction) -> (r: String)
    ensures
        r@ == shape_name(interaction_name_shape(interaction)),
{
    let shape = match interaction {
        Interaction::Nothing => CursorShape::Default,
        Interaction::Idle => CursorShape::Wait,
        Interaction::Hidden => CursorShape::Default,
        Interaction::ContextMenu => CursorShape::Default,
        Interaction::Help => CursorShape::Help,
        Interaction::Pointer => CursorShape::Pointer,
        Interaction::Progress => CursorShape::Default,
        Interaction::Wait => CursorShape::Wait,
        Interaction::Cell => CursorShape::Cell,
        Interaction::Crosshair => CursorShape::Crosshair,
        Interaction::Text => CursorShape::Text,
        Interaction::Alias => CursorShape::Default,
        Interaction::Copy => CursorShape::Copy,
        Interaction::Move => CursorShape::Move,
        Interaction::NoDrop => CursorShape::Default,
        Interaction::NotAllowed => CursorShape::NotAllowed,
        Interaction::Grab => CursorShape::Grab,
        Interaction::Grabbing => CursorShape::Grabbing,
        Interaction::ResizingHorizontally => CursorShape::EwResize,
        Interaction::ResizingVertically => CursorShape::NsResize,
        Interaction::ResizingDiagonallyUp => CursorShape::NwseResize,
        Interaction::ResizingDiagonallyDown => CursorShape::NwseResize,
        Interaction::ResizingColumn => CursorShape::Default,
        Interaction::ResizingRow => CursorShape::Default,
        Interaction::AllScroll => CursorShape::Default,
        Interaction::ZoomIn => CursorShape::ZoomIn,
        Interaction::ZoomOut => CursorShape::ZoomOut,
    };
    shape.name().to_owned()
}

} // verus!
