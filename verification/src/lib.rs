//! Verified core of a Wayland layer-shell / session-lock toolkit.
//!
//! The modules hold the decisions that the event loop takes: how the
//! session-lock lifecycle advances, when a surface may present a new frame,
//! which outputs a surface is on, which windows close together, where the
//! pointer and fingers are, how keys repeat, what input-method events turn
//! into, how scroll frames are folded and split, and how cursor names and
//! wire values are read. The Wayland objects themselves stay with the
//! caller, which performs the steps these functions return.

pub mod builder;
pub mod cursor;
pub mod geometry;
pub mod iced_input;
pub mod ime;
pub mod keyboard;
pub mod lock;
pub mod outputs;
pub mod pointer;
pub mod refresh;
pub mod requests;
pub mod scroll;
pub mod seat;
pub mod settings;
pub mod start;
pub mod text;
pub mod toolkit;
pub mod toplevel;
pub mod touch;
pub mod ui_batch;
pub mod unit_outputs;
pub mod units;
pub mod window_aliases;
