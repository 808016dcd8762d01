//! The settings a layer-shell program starts with, gathered by a builder.

use vstd::prelude::*;
use crate::geometry::Margin;
use crate::start::StartMode;

verus! {

/// The layer a layer surface is drawn in, from the bottom up.
#[derive(Debug, Clone, Copy, PartialEq, Eq, Structural)]
pub enum Layer {
    Background,
    Bottom,
    Top,
    Overlay,
}

/// Whether and how a layer surface takes keyboard focus.
#[derive(Debug, Clone, Copy, PartialEq, Eq, Structural)]
pub enum KeyboardInteractivity {
    /// never takes keyboard focus
    Never,
    /// all keyboard input, while the surface is in a layer above others
    Exclusive,
    /// when the user gives it focus
    OnDemand,
}

/// The output edges a layer surface is anchored to.
#[derive(Debug, Clone, Copy, PartialEq, Eq, Structural)]
pub struct Anchor {
    pub top: bool,
    pub bottom: bool,
    pub left: bool,
    pub right: bool,
}

impl Anchor {
    /// Anchored to all four edges.
    pub fn all() -> (r: Anchor)
        ensures
            r == (Anchor { top: true, bottom: true, left: true, right: true }),
    {
        Anchor { top: true, bottom: true, left: true, right: true }
    }
}

/// How long a layer surface is along one axis.
#[derive(Debug, Clone, Copy, PartialEq, Eq, Structural)]
pub enum Extent {
    /// as long as the output allows, between the anchored edges
    Fill,
    /// this many pixels
    Px(u32),
}

/// The size asked for a layer surface, per axis.
#[derive(Debug, Clone, Copy, PartialEq, Eq, Structural)]
pub struct LayerSize {
    pub width: Extent,
    pub height: Extent,
}

impl LayerSize {
    /// Filling the output on both axes.
    pub fn fill() -> (r: LayerSize)
        ensures
            r == (LayerSize { width: Extent::Fill, height: Extent::Fill }),
    {
        LayerSize { width: Extent::Fill, height: Extent::Fill }
    }

    /// Filling the output's width, `height` pixels high.
    pub fn fill_width(height: u32) -> (r: LayerSize)
        ensures
            r == (LayerSize { width: Extent::Fill, height: Extent::Px(height) }),
    {
        LayerSize { width: Extent::Fill, height: Extent::Px(height) }
    }

    /// `width` by `height` pixels.
    pub fn px(width: u32, height: u32) -> (r: LayerSize)
        ensures
            r == (LayerSize { width: Extent::Px(width), height: Extent::Px(height) }),
    {
        LayerSize { width: Extent::Px(width), height: Extent::Px(height) }
    }
}

/// The settings of a layer-shell program: its namespace, how it starts,
/// and how its layer surfaces are set up.
#[derive(Debug)]
pub struct ContextBuilder {
    /// the namespace of the layer surfaces
    pub default_namespace: String,
    /// where the program shows
    pub start_mode: StartMode,
    /// pointer and touch input passes through the surfaces
    pub events_transparent: bool,
    pub keyboard_interactivity: KeyboardInteractivity,
    pub anchor: Anchor,
    pub margin: Option<Margin>,
    /// the size asked for the layer surfaces
    pub size: LayerSize,
    pub exclusive_zone: Option<i32>,
    /// the toolkit draws through the display handle
    pub use_display_handle: bool,
    pub layer: Layer,
}

/// The settings of a builder that was given nothing but `namespace`: on
/// the active output, anchored to all edges, filling the output, in the
/// top layer, without keyboard focus, margin or exclusive zone.
pub open spec fn default_with(namespace: Seq<char>, b: ContextBuilder) -> bool {
    &&& b.default_namespace@ == namespace
    &&& b.start_mode == StartMode::Active
    &&& !b.events_transparent
    &&& b.keyboard_interactivity == KeyboardInteractivity::Never
    &&& b.anchor == Anchor { top: true, bottom: true, left: true, right: true }
    &&& b.margin is None
    &&& b.size == LayerSize { width: Extent::Fill, height: Extent::Fill }
    &&& b.exclusive_zone is None
    &&& !b.use_display_handle
    &&& b.layer == Layer::Top
}

impl Default for ContextBuilder {
    /// The settings under the namespace `osd`.
    fn default() -> (r: Self)
        ensures
            default_with("osd"@, r),
    {
        ContextBuilder::defaults("osd")
    }
}

impl ContextBuilder {
    fn defaults(namespace: &str) -> (r: Self)
        ensures
            default_with(namespace@, r),
    {
        ContextBuilder {
            default_namespace: namespace.to_owned(),
            start_mode: StartMode::Active,
            events_transparent: false,
            keyboard_interactivity: KeyboardInteractivity::Never,
            anchor: Anchor::all(),
            margin: None,
            size: LayerSize::fill(),
            exclusive_zone: None,
            use_display_handle: false,
            layer: Layer::Top,
        }
    }

    /// The default settings under `namespace`, which must not be empty.
    pub fn start(namespace: &str) -> (r: Self)
        requires
            namespace@.len() > 0,
        ensures
            default_with(namespace@, r),
    {
        ContextBuilder::defaults(namespace)
    }

    /// Shows on the output with connector name `binded_output_name`.
    pub fn with_xdg_output_name(self, binded_output_name: String) -> (r: Self)
        ensures
            r == (ContextBuilder { start_mode: StartMode::TargetScreen(binded_output_name), ..self }),
    {
        ContextBuilder { start_mode: StartMode::TargetScreen(binded_output_name), ..self }
    }

    pub fn with_start_mode(self, mode: StartMode) -> (r: Self)
        ensures
            r == (ContextBuilder { start_mode: mode, ..self }),
    {
        ContextBuilder { start_mode: mode, ..self }
    }

    pub fn with_events_transparent(self, transparent: bool) -> (r: Self)
        ensures
            r == (ContextBuilder { events_transparent: transparent, ..self }),
    {
        ContextBuilder { events_transparent: transparent, ..self }
    }

    /// Shows on the output the compositor considers active.
    pub fn with_active(self) -> (r: Self)
        ensures
            r == (ContextBuilder { start_mode: StartMode::Active, ..self }),
    {
        ContextBuilder { start_mode: StartMode::Active, ..self }
    }

    /// Shows on the named output if a name is given, else on the active one.
    pub fn with_active_or_xdg_output_name(self, binded_output_name: Option<String>) -> (r: Self)
        ensures
            r == (ContextBuilder {
                start_mode: match binded_output_name {
                    Some(name) => StartMode::TargetScreen(name),
                    None => StartMode::Active,
                },
                ..self
            }),
    {
        match binded_output_name {
            Some(name) => self.with_xdg_output_name(name),
            None => self.with_active(),
        }
    }

    /// Shows on the named output if a name is given, else on every output.
    pub fn with_allscreens_or_xdg_output_name(self, binded_output_name: Option<String>) -> (r: Self)
        ensures
            r == (ContextBuilder {
                start_mode: match binded_output_name {
                    Some(name) => StartMode::TargetScreen(name),
                    None => StartMode::AllScreens,
                },
                ..self
            }),
    {
        match binded_output_name {
            Some(name) => self.with_xdg_output_name(name),
            None => self.with_allscreens(),
        }
    }

    /// Shows on the named output if a name is given; else changes nothing.
    pub fn with_xdg_output_name_or_not(self, binded_output_name: Option<String>) -> (r: Self)
        ensures
            r == (match binded_output_name {
                Some(name) => ContextBuilder { start_mode: StartMode::TargetScreen(name), ..self },
                None => self,
            }),
    {
        match binded_output_name {
            Some(name) => self.with_xdg_output_name(name),
            None => self,
        }
    }

    /// Shows on every output if `allscreen`, else on the active one.
    pub fn with_allscreens_or_active(self, allscreen: bool) -> (r: Self)
        ensures
            r == (ContextBuilder {
                start_mode: if allscreen { StartMode::AllScreens } else { StartMode::Active },
                ..self
            }),
    {
        if allscreen {
            ContextBuilder { start_mode: StartMode::AllScreens, ..self }
        } else {
            ContextBuilder { start_mode: StartMode::Active, ..self }
        }
    }

    /// Shows on every output, including those connected later.
    pub fn with_allscreens(self) -> (r: Self)
        ensures
            r == (ContextBuilder { start_mode: StartMode::AllScreens, ..self }),
    {
        ContextBuilder { start_mode: StartMode::AllScreens, ..self }
    }

    /// Runs in the background if `background_mode`; else changes nothing.
    pub fn with_background_or_not(self, background_mode: bool) -> (r: Self)
        ensures
            r == (if background_mode {
                ContextBuilder { start_mode: StartMode::Background, ..self }
            } else {
                self
            }),
    {
        if !background_mode {
            return self;
        }
        self.with_background()
    }

    /// Runs in the background, without a layer surface.
    pub fn with_background(self) -> (r: Self)
        ensures
            r == (ContextBuilder { start_mode: StartMode::Background, ..self }),
    {
        ContextBuilder { start_mode: StartMode::Background, ..self }
    }

    pub fn with_keyboard_interacivity(self, keyboard_interacivity: KeyboardInteractivity) -> (r: Self)
        ensures
            r == (ContextBuilder { keyboard_interactivity: keyboard_interacivity, ..self }),
    {
        ContextBuilder { keyboard_interactivity: keyboard_interacivity, ..self }
    }

    pub fn with_anchor(self, anchor: Anchor) -> (r: Self)
        ensures
            r == (ContextBuilder { anchor, ..self }),
    {
        ContextBuilder { anchor, ..self }
    }

    pub fn with_layer(self, layer: Layer) -> (r: Self)
        ensures
            r == (ContextBuilder { layer, ..self }),
    {
        ContextBuilder { layer, ..self }
    }

    pub fn with_margin(self, margin: Margin) -> (r: Self)
        ensures
            r == (ContextBuilder { margin: Some(margin), ..self }),
    {
        ContextBuilder { margin: Some(margin), ..self }
    }

    /// The size asked for the layer surfaces.
    pub fn with_size(self, size: LayerSize) -> (r: Self)
        ensures
            r == (ContextBuilder { size, ..self }),
    {
        ContextBuilder { size, ..self }
    }

    pub fn with_exclusive_zone(self, exclusive_zone: i32) -> (r: Self)
        ensures
            r == (ContextBuilder { exclusive_zone: Some(exclusive_zone), ..self }),
    {
        ContextBuilder { exclusive_zone: Some(exclusive_zone), ..self }
    }

    pub fn with_use_display_handle(self, use_display_handle: bool) -> (r: Self)
        ensures
            r == (ContextBuilder { use_display_handle, ..self }),
    {
        ContextBuilder { use_display_handle, ..self }
    }
}

} // verus!
