//! The part of a game's configuration that the drawing layer keeps.

use vstd::prelude::*;

verus! {

/// Whether and how a window fills the screen.
#[derive(Clone, Copy, Debug, PartialEq, Eq, Structural)]
pub enum FullscreenType {
    /// An ordinary window.
    Windowed,
    /// Exclusive fullscreen at the window's own resolution.
    True,
    /// A borderless window that covers the desktop.
    Desktop,
}

/// The size of a window and how it behaves.
#[derive(Clone, Copy, Debug, PartialEq, Eq, Structural)]
pub struct WindowMode {
    /// Width in logical pixels.
    pub width: u32,
    /// Height in logical pixels.
    pub height: u32,
    pub maximized: bool,
    pub fullscreen_type: FullscreenType,
    pub borderless: bool,
    /// Least width; 0 for none.
    pub min_width: u32,
    /// Least height; 0 for none.
    pub min_height: u32,
    /// Greatest width; 0 for none.
    pub max_width: u32,
    /// Greatest height; 0 for none.
    pub max_height: u32,
    pub resizable: bool,
}

/// The window mode of a new configuration: 800 by 600, windowed, with
/// borders, of fixed size and without limits.
pub open spec fn default_window_mode() -> WindowMode {
    WindowMode {
        width: 800,
        height: 600,
        maximized: false,
        fullscreen_type: FullscreenType::Windowed,
        borderless: false,
        min_width: 0,
        min_height: 0,
        max_width: 0,
        max_height: 0,
        resizable: false,
    }
}

impl Default for WindowMode {
    fn default() -> (m: WindowMode)
        ensures
            m == default_window_mode(),
    {
        WindowMode {
            width: 800,
            height: 600,
            maximized: false,
            fullscreen_type: FullscreenType::Windowed,
            borderless: false,
            min_width: 0,
            min_height: 0,
            max_width: 0,
            max_height: 0,
            resizable: false,
        }
    }
}

/// One thing that a window is asked to do.
#[derive(Clone, Copy, Debug, PartialEq, Eq)]
pub enum WindowRequest {
    /// Maximize the window, or restore it.
    Maximized(bool),
    /// Set the least size, or lift the limit.
    MinDimensions(Option<(u32, u32)>),
    /// Set the greatest size, or lift the limit.
    MaxDimensions(Option<(u32, u32)>),
    /// Take the current monitor exclusively, or give it back.
    Fullscreen(bool),
    /// Show the window's borders and title bar, or hide them.
    Decorations(bool),
    /// Set the size of the drawable, in logical pixels.
    InnerSize(u32, u32),
    /// Let the user resize the window, or not.
    Resizable(bool),
    /// Give the window the size and the position of the current monitor.
    CoverMonitor,
}

/// A size limit, which is in force only if both sides are given.
pub open spec fn limit(width: u32, height: u32) -> Option<(u32, u32)> {
    if width > 0 && height > 0 {
        Some((width, height))
    } else {
        None
    }
}

/// What a window is asked to do, in order, to take a mode. The limits and
/// the maximized state come first. Then a window gets its borders, size
/// and resizability; exclusive fullscreen gets the monitor and the size;
/// desktop fullscreen loses its borders and covers the monitor.
pub open spec fn requests_for(mode: WindowMode) -> Seq<WindowRequest> {
    let common = seq![
        WindowRequest::Maximized(mode.maximized),
        WindowRequest::MinDimensions(limit(mode.min_width, mode.min_height)),
        WindowRequest::MaxDimensions(limit(mode.max_width, mode.max_height)),
    ];
    match mode.fullscreen_type {
        FullscreenType::Windowed => common + seq![
            WindowRequest::Fullscreen(false),
            WindowRequest::Decorations(!mode.borderless),
            WindowRequest::InnerSize(mode.width, mode.height),
            WindowRequest::Resizable(mode.resizable),
        ],
        FullscreenType::True => common + seq![
            WindowRequest::Fullscreen(true),
            WindowRequest::InnerSize(mode.width, mode.height),
        ],
        FullscreenType::Desktop => common + seq![
            WindowRequest::Fullscreen(false),
            WindowRequest::Decorations(false),
            WindowRequest::CoverMonitor,
        ],
    }
}

/// What a window is asked to do, in order, to take `mode`.
pub fn window_requests(mode: WindowMode) -> (r: Vec<WindowRequest>)
    ensures
        r@ == requests_for(mode),
{
    let min = if mode.min_width > 0 && mode.min_height > 0 {
        Some((mode.min_width, mode.min_height))
    } else {
        None
    };
    let max = if mode.max_width > 0 && mode.max_height > 0 {
        Some((mode.max_width, mode.max_height))
    } else {
        None
    };
    let mut r: Vec<WindowRequest> = Vec::new();
    r.push(WindowRequest::Maximized(mode.maximized));
    r.push(WindowRequest::MinDimensions(min));
    r.push(WindowRequest::MaxDimensions(max));
    match mode.fullscreen_type {
        FullscreenType::Windowed => {
            r.push(WindowRequest::Fullscreen(false));
            r.push(WindowRequest::Decorations(!mode.borderless));
            r.push(WindowRequest::InnerSize(mode.width, mode.height));
            r.push(WindowRequest::Resizable(mode.resizable));
        },
        FullscreenType::True => {
            r.push(WindowRequest::Fullscreen(true));
            r.push(WindowRequest::InnerSize(mode.width, mode.height));
        },
        FullscreenType::Desktop => {
            r.push(WindowRequest::Fullscreen(false));
            r.push(WindowRequest::Decorations(false));
            r.push(WindowRequest::CoverMonitor);
        },
    }
    assert(r@ =~= requests_for(mode));
    r
}

/// The configuration that a context carries.
#[derive(Clone, Copy, Debug, PartialEq, Eq, Structural)]
pub struct Conf {
    /// The window mode that was last applied.
    pub window_mode: WindowMode,
}

} // verus!
