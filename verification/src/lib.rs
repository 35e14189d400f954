//! Build-time checking for GPU draw calls.
//!
//! A compiled GPU program declares a fixed schema of named inputs: per-vertex
//! attributes and per-draw uniforms, each of a fixed shading-language kind.
//! This crate tracks, for every draw command under construction, which of
//! those inputs have been supplied, with what memory format, and refuses to
//! finalize a command until every input has been supplied exactly once with a
//! compatible kind.  The bookkeeping - kinds, storage formats, packed vertex
//! layouts, requirement sets, and the command builder - is verified; the
//! graphics backend itself is driven by the embedding application from the
//! plans this crate produces.

use vstd::prelude::*;

pub mod buffer;
pub mod command;
pub mod errors;
pub mod executor;
pub mod format;
pub mod glsl;
pub mod layout;
pub mod program;
pub mod record;
pub mod require;
pub mod surface;
pub mod tlprog;

verus! {

/// How the embedding application's window is created: a sized window,
/// the maximised frame, or exclusive fullscreen.
pub enum WindowMode {
    /// A window of the given size; the limits bound later resizes, a
    /// `None` leaving that bound open.
    Windowed {
        width: i32,
        height: i32,
        resizeable: bool,
        min_limits: (Option<i32>, Option<i32>),
        max_limits: (Option<i32>, Option<i32>),
    },
    /// The window manager's maximised frame.
    Maximised,
    /// Exclusive fullscreen on the primary monitor.
    Fullscreen,
}

/// What the embedding application opens its window with: a mode and a
/// title.
pub struct Configuration<'a> {
    /// How the window is created.
    pub mode: WindowMode,
    /// The window title.
    pub title: &'a str,
}

} // verus!
