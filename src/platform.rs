//! Which backend serves a window, and the check that a window handle belongs
//! to the windowing system that backend drives.
use vstd::prelude::*;
use crate::positioner::{PositionStep, Positioning};

verus! {

/// The windowing system that a native window handle belongs to.
#[derive(Clone, Copy, Debug, PartialEq, Eq, Structural)]
pub enum WindowSystem {
    Windows,
    Xlib,
    Xcb,
    Wayland,
    MacOS,
    IOS,
    Android,
    Web,
    Other,
}

/// A native window handle, tagged with its windowing system; `window` is the
/// handle's value (the `HWND` on Windows). The window stays the host's.
#[derive(Clone, Copy, Debug, PartialEq, Eq, Structural)]
pub struct WindowHandle {
    pub system: WindowSystem,
    pub window: usize,
}

/// The backend that the library was built for.
#[derive(Clone, Copy, Debug, PartialEq, Eq, Structural)]
pub enum Backend {
    /// The Windows input method manager.
    Windows,
    /// A platform with no input method backend.
    Unsupported,
}

/// Why no input method context could be made for a window.
#[derive(Clone, Copy, Debug, PartialEq, Eq, Structural)]
pub enum ConnectError {
    /// The library has no backend for this platform.
    PlatformNotSupported,
    /// The window handle belongs to another windowing system than the backend's.
    PlatformNotMatched,
}

impl ConnectError {
    /// A description of the error for people.
    pub fn message(&self) -> (r: &'static str)
        ensures
            r@ == match *self {
                ConnectError::PlatformNotSupported => "Platform not supported"@,
                ConnectError::PlatformNotMatched => "Platform not matched"@,
            },
    {
        match self {
            ConnectError::PlatformNotSupported => {
                proof {
                    reveal_strlit("Platform not supported");
                }
                "Platform not supported"
            },
            ConnectError::PlatformNotMatched => {
                proof {
                    reveal_strlit("Platform not matched");
                }
                "Platform not matched"
            },
        }
    }
}

/// The Windows backend's context: the window whose composition window it
/// positions, captured once and never changed.
#[derive(Clone, Copy, Debug, PartialEq, Eq, Structural)]
pub struct IMEImpl {
    window: usize,
}

impl IMEImpl {
    /// The window that this context is bound to.
    pub closed spec fn spec_window(self) -> usize {
        self.window
    }

    /// Binds a context to `w`, which must be a Windows window handle.
    pub fn new(w: WindowHandle) -> (r: Result<IMEImpl, ConnectError>)
        ensures
            w.system == WindowSystem::Windows <==> r is Ok,
            r is Ok ==> r->Ok_0.spec_window() == w.window,
            r is Err ==> r->Err_0 == ConnectError::PlatformNotMatched,
    {
        match w.system {
            WindowSystem::Windows => Ok(IMEImpl { window: w.window }),
            _ => Err(ConnectError::PlatformNotMatched),
        }
    }

    /// Starts placing the composition window of the bound window.
    pub fn set_position(&self) -> (r: Positioning)
        ensures
            r.spec_window() == self.spec_window(),
            r.spec_step() == PositionStep::QueryImeEnabled,
    {
        Positioning::start(self.window)
    }

    /// The window that this context is bound to.
    pub fn window(&self) -> (r: usize)
        ensures
            r == self.spec_window(),
    {
        self.window
    }
}

} // verus!
