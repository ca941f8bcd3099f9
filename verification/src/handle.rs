//! The opaque window-handle variants a caller can hand to initialization,
//! and the typed failure the dispatcher reports for the unsupported ones.
//!
//! Native pointer-valued handle fields are carried as plain integers: the
//! caller-side shell converts its raw platform handle into this closed
//! variant before initialization, and converts back when it drives the
//! native calls.

use vstd::prelude::*;

verus! {

/// A raw window handle, one tag per platform. Only `Xlib`, `Wayland`,
/// `Win32` and `Web` have a backend mapping; every other tag is explicitly
/// unsupported.
#[derive(Clone, Copy, Debug, PartialEq, Eq, Structural)]
pub enum WindowHandle {
    UiKit,
    AppKit,
    Orbital,
    /// An X11 window id.
    Xlib { window: u64 },
    Xcb,
    /// A Wayland surface, carried as the address of the native object.
    Wayland { surface: usize },
    Drm,
    Gbm,
    /// A Win32 window handle, carried as the address value.
    Win32 { hwnd: isize },
    WinRt,
    /// A browser canvas, identified by the id the windowing shim assigned.
    Web { id: u32 },
    AndroidNdk,
    Haiku,
    /// A handle variant this library does not know at all.
    Unknown,
}

/// Whether a handle variant has a backend mapping.
pub open spec fn spec_supported(h: WindowHandle) -> bool {
    ||| h is Xlib
    ||| h is Wayland
    ||| h is Win32
    ||| h is Web
}

/// The typed failure of the initialization entry point.
#[derive(Clone, Copy, Debug, PartialEq, Eq, Structural)]
pub enum BlyError {
    /// The handle variant has no backend mapping.
    UnsupportedPlatform,
}

impl WindowHandle {
    /// True exactly on the variants the dispatcher can construct a backend
    /// for.
    pub fn is_supported(&self) -> (r: bool)
        ensures
            r == spec_supported(*self),
    {
        match self {
            WindowHandle::Xlib { .. } => true,
            WindowHandle::Wayland { .. } => true,
            WindowHandle::Win32 { .. } => true,
            WindowHandle::Web { .. } => true,
            _ => false,
        }
    }
}

} // verus!
