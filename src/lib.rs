//! Positions the input method composition window of a native window at a
//! caret location, with the DPI of the window resolved through whichever of
//! the per-window, per-monitor or device-context facilities the OS offers.
use vstd::prelude::*;

pub mod dpi;
pub mod platform;
pub mod positioner;
pub mod symbols;

use crate::platform::{Backend, ConnectError, IMEImpl, WindowHandle, WindowSystem};
use crate::positioner::{PositionStep, Positioning};

verus! {

/// An input method context bound to one window, made once by `connect`.
pub struct IME {
    ime_impl: IMEImpl,
}

impl IME {
    /// The window that this context is bound to.
    pub closed spec fn spec_window(self) -> usize {
        self.ime_impl.spec_window()
    }

    /// Binds a context to `window` for `backend`: fails when the backend is
    /// unsupported, or when the handle belongs to another windowing system.
    pub fn connect(backend: Backend, window: WindowHandle) -> (r: Result<IME, ConnectError>)
        ensures
            backend == Backend::Unsupported ==> r == Err::<IME, ConnectError>(
                ConnectError::PlatformNotSupported,
            ),
            backend == Backend::Windows && window.system != WindowSystem::Windows ==> r
                == Err::<IME, ConnectError>(ConnectError::PlatformNotMatched),
            backend == Backend::Windows && window.system == WindowSystem::Windows ==> r is Ok
                && r->Ok_0.spec_window() == window.window,
    {
        match backend {
            Backend::Unsupported => Err(ConnectError::PlatformNotSupported),
            Backend::Windows => match IMEImpl::new(window) {
                Ok(ime_impl) => Ok(IME { ime_impl }),
                Err(e) => Err(e),
            },
        }
    }

    /// The window that this context is bound to.
    pub fn window(&self) -> (r: usize)
        ensures
            r == self.spec_window(),
    {
        self.ime_impl.window()
    }

    /// Starts placing the composition window at a caret: the caller makes the
    /// call of each step, reports its outcome, and at `SetCompositionWindow`
    /// scales the caret by the DPI that the step carries.
    pub fn set_position(&self) -> (r: Positioning)
        ensures
            r.spec_window() == self.spec_window(),
            r.spec_step() == PositionStep::QueryImeEnabled,
    {
        self.ime_impl.set_position()
    }
}

} // verus!
