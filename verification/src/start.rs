//! How a shell starts: the start mode, the surfaces created at start and
//! when an output appears, and the handshake with the program's `on_init`.

use vstd::prelude::*;
use crate::lock::LockLifecycle;
use crate::unit_outputs::{OutputLabel, name_index};
use crate::units::WindowRegistry;

verus! {

/// How a layer-shell program starts.
#[derive(Debug, Clone, PartialEq, Eq)]
pub enum StartMode {
    /// on the output the compositor considers active
    Active,
    /// as a background program without a layer surface, for programs such
    /// as a desktop portal
    Background,
    /// on every output, including those connected later
    AllScreens,
    /// on the output with this connector name
    TargetScreen(String),
    /// on this output, named by its global name
    TargetOutput(u32),
}

impl Default for StartMode {
    fn default() -> (r: Self)
        ensures
            r == StartMode::Active,
    {
        StartMode::Active
    }
}

impl StartMode {
    /// Whether the program starts on the active output.
    pub fn is_active(&self) -> (r: bool)
        ensures
            r == (*self is Active),
    {
        match self {
            StartMode::Active => true,
            _ => false,
        }
    }

    /// Whether the program starts in the background.
    pub fn is_background(&self) -> (r: bool)
        ensures
            r == (*self is Background),
    {
        match self {
            StartMode::Background => true,
            _ => false,
        }
    }

    /// Whether the program shows on every output.
    pub fn is_allscreens(&self) -> (r: bool)
        ensures
            r == (*self is AllScreens),
    {
        match self {
            StartMode::AllScreens => true,
            _ => false,
        }
    }

    /// On the named output, or on the active one when no name is given.
    pub fn active_or_xdg_output_name(name: Option<String>) -> (r: StartMode)
        ensures
            r == match name {
                Some(n) => StartMode::TargetScreen(n),
                None => StartMode::Active,
            },
    {
        match name {
            Some(n) => StartMode::TargetScreen(n),
            None => StartMode::Active,
        }
    }

    /// On the named output, or on every output when no name is given.
    pub fn allscreens_or_xdg_output_name(name: Option<String>) -> (r: StartMode)
        ensures
            r == match name {
                Some(n) => StartMode::TargetScreen(n),
                None => StartMode::AllScreens,
            },
    {
        match name {
            Some(n) => StartMode::TargetScreen(n),
            None => StartMode::AllScreens,
        }
    }

    /// On the named output when a name is given; this mode otherwise.
    pub fn xdg_output_name_or_not(self, name: Option<String>) -> (r: StartMode)
        ensures
            r == match name {
                Some(n) => StartMode::TargetScreen(n),
                None => self,
            },
    {
        match name {
            Some(n) => StartMode::TargetScreen(n),
            None => self,
        }
    }

    /// On every output, or on the active one.
    pub fn allscreens_or_active(allscreens: bool) -> (r: StartMode)
        ensures
            r == (if allscreens {
                StartMode::AllScreens
            } else {
                StartMode::Active
            }),
    {
        if allscreens {
            StartMode::AllScreens
        } else {
            StartMode::Active
        }
    }

    /// In the background when asked; this mode otherwise.
    pub fn background_or_not(self, background: bool) -> (r: StartMode)
        ensures
            r == (if background {
                StartMode::Background
            } else {
                self
            }),
    {
        if background {
            StartMode::Background
        } else {
            self
        }
    }

    /// Whether the program starts on a named output.
    pub fn is_with_target(&self) -> (r: bool)
        ensures
            r == (*self is TargetScreen),
    {
        match self {
            StartMode::TargetScreen(_) => true,
            _ => false,
        }
    }
}

/// The surfaces a shell creates when it starts.
#[derive(Debug, Clone, PartialEq, Eq)]
pub enum StartPlan {
    /// one plain surface, without a layer
    Background,
    /// one layer surface on each of these outputs, in order
    OnEachOutput(Vec<u32>),
    /// one layer surface, on this output or where the compositor puts it
    Single(Option<u32>),
}

/// The surfaces a shell in start mode `mode` creates at start, given the
/// outputs bound then and their descriptions `infos`: a background
/// surface, a layer surface per output, or one layer surface on the
/// named output (on the compositor's choice when no output has the name).
pub fn start_plan(mode: &StartMode, registry: &WindowRegistry, infos: &Vec<OutputLabel>) -> (r: StartPlan)
    ensures
        match *mode {
            StartMode::Background => r == StartPlan::Background,
            StartMode::AllScreens => r matches StartPlan::OnEachOutput(v) && v@ == registry.outputs@,
            StartMode::TargetScreen(name) => r == StartPlan::Single(
                match name_index(infos@, name@) {
                    Some(i) => Some(infos@[i].global),
                    None => None,
                },
            ),
            StartMode::TargetOutput(o) => r == StartPlan::Single(Some(o)),
            StartMode::Active => r == StartPlan::Single(None),
        },
{
    match mode {
        StartMode::Background => StartPlan::Background,
        StartMode::AllScreens => {
            let mut outputs: Vec<u32> = Vec::new();
            let mut i: usize = 0;
            while i < registry.outputs.len()
                invariant
                    0 <= i <= registry.outputs@.len(),
                    outputs@ == registry.outputs@.take(i as int),
                decreases registry.outputs@.len() - i,
            {
                outputs.push(registry.outputs[i]);
                proof {
                    assert(registry.outputs@.take(i as int + 1) =~= registry.outputs@.take(i as int).push(
                        registry.outputs@[i as int],
                    ));
                }
                i += 1;
            }
            proof {
                assert(registry.outputs@.take(registry.outputs@.len() as int) =~= registry.outputs@);
            }
            StartPlan::OnEachOutput(outputs)
        },
        StartMode::TargetScreen(name) => StartPlan::Single(registry.output_by_name(infos, name.as_str())),
        StartMode::TargetOutput(o) => StartPlan::Single(Some(*o)),
        StartMode::Active => StartPlan::Single(None),
    }
}

/// The surfaces owed to an output that appears while the loop runs.
#[derive(Debug, Clone, Copy, PartialEq, Eq, Structural)]
pub struct NewDisplayPlan {
    /// a lock surface, because a session lock is pending or held
    pub lock_surface: bool,
    /// a layer surface, because the program shows on every output
    pub layer_surface: bool,
}

/// What a new output gets: a lock surface while a lock is pending or
/// held, and a layer surface when the program shows on every output.
pub fn new_display_plan(lock: LockLifecycle, mode: &StartMode) -> (r: NewDisplayPlan)
    ensures
        r.lock_surface == !(lock is Unlocked),
        r.layer_surface == (*mode is AllScreens),
{
    let lock_surface = match lock {
        LockLifecycle::Unlocked => false,
        _ => true,
    };
    NewDisplayPlan { lock_surface, layer_surface: mode.is_allscreens() }
}

/// What the program's `on_init` returns.
#[derive(Debug, Clone, Copy, PartialEq, Eq, Structural)]
pub enum InitRequest {
    /// hand me the globals and the queue, to bind more protocols
    RequestBind,
    /// hand me the compositor and the queue
    RequestCompositor,
    /// initialization is done
    NoRequest,
}

/// The init events handed to `on_init`.
#[derive(Debug, Clone, Copy, PartialEq, Eq, Structural)]
pub enum InitStage {
    /// the first call
    Start,
    /// the globals and the queue
    BindProvide,
    /// the compositor and the queue
    CompositorProvide,
}

/// The next init event after `on_init` answered `previous` (`None` before
/// the first call); `None` when initialization is done.
pub fn next_init_stage(previous: Option<InitRequest>) -> (r: Option<InitStage>)
    ensures
        r == match previous {
            None => Some(InitStage::Start),
            Some(InitRequest::RequestBind) => Some(InitStage::BindProvide),
            Some(InitRequest::RequestCompositor) => Some(InitStage::CompositorProvide),
            Some(InitRequest::NoRequest) => None,
        },
{
    match previous {
        None => Some(InitStage::Start),
        Some(InitRequest::RequestBind) => Some(InitStage::BindProvide),
        Some(InitRequest::RequestCompositor) => Some(InitStage::CompositorProvide),
        Some(InitRequest::NoRequest) => None,
    }
}

} // verus!
