//! The decisions of one positioning of the composition window, as a state
//! machine: each step names one OS call for the caller to make, and the
//! caller reports its outcome as an event.
use vstd::prelude::*;
use crate::dpi::{
    BASE_DPI,
    QUERY_SUCCEEDED,
    DpiTier,
    tier_for,
    window_dpi,
    monitor_dpi,
    device_context_dpi,
    resolve_window_dpi,
    monitor_found,
    resolve_monitor_dpi,
    resolve_device_context_dpi,
};

verus! {

/// The OS call that a positioning waits on, or how it ended.
#[derive(Clone, Copy, Debug, PartialEq, Eq, Structural)]
pub enum PositionStep {
    /// Ask whether the input method subsystem is enabled.
    QueryImeEnabled,
    /// Find out whether the per-window DPI entry point is present.
    FindWindowDpiSymbol,
    /// Find out whether the per-monitor DPI entry point is present.
    FindMonitorDpiSymbol,
    /// Ask the window `.0` for its DPI.
    QueryWindowDpi(usize),
    /// Find the monitor nearest to the window `.0`.
    FindMonitor(usize),
    /// Ask the monitor `.0` for its effective DPI.
    QueryMonitorDpi(usize),
    /// Get the device context of the window `.0`.
    AcquireDeviceContext(usize),
    /// Ask whether the process is DPI-aware; `.0` is the device context.
    QueryProcessDpiAware(usize),
    /// Read the pixels per logical inch of the device context `.0`.
    QueryDeviceCaps(usize),
    /// Place the composition window of the window `.0` at the caret scaled by
    /// the DPI `.1` over the baseline.
    SetCompositionWindow(usize, u32),
    /// Done: nothing is left to do.
    Finished,
    /// The window has no device context: its handle is no longer valid, and
    /// the positioning cannot go on.
    Abort,
}

/// The outcome of the OS call of the current step.
#[derive(Clone, Copy, Debug, PartialEq, Eq, Structural)]
pub enum PositionEvent {
    /// Whether the input method subsystem is enabled.
    ImeEnabled(bool),
    /// Whether the per-window DPI entry point is present.
    WindowDpiSymbol(bool),
    /// Whether the per-monitor DPI entry point is present.
    MonitorDpiSymbol(bool),
    /// The answer of the per-window DPI query.
    WindowDpi(u32),
    /// The nearest monitor's handle, null when there is none.
    Monitor(usize),
    /// The status and the horizontal DPI of the per-monitor query.
    MonitorDpi(i32, u32),
    /// The window's device context, null when it could not be had.
    DeviceContext(usize),
    /// Whether the process is DPI-aware.
    ProcessDpiAware(bool),
    /// The pixels per logical inch of the device context.
    DeviceCaps(i32),
    /// The composition window was placed.
    CompositionWindowSet,
}

/// The step that follows `step` when its call had the outcome `event`, for
/// the window `window`; an event that does not answer the step changes
/// nothing.
pub open spec fn next_step(window: usize, step: PositionStep, event: PositionEvent) -> PositionStep {
    match (step, event) {
        (PositionStep::QueryImeEnabled, PositionEvent::ImeEnabled(enabled)) => {
            if enabled {
                PositionStep::FindWindowDpiSymbol
            } else {
                PositionStep::Finished
            }
        },
        (PositionStep::FindWindowDpiSymbol, PositionEvent::WindowDpiSymbol(found)) => {
            if found {
                PositionStep::QueryWindowDpi(window)
            } else {
                PositionStep::FindMonitorDpiSymbol
            }
        },
        (PositionStep::FindMonitorDpiSymbol, PositionEvent::MonitorDpiSymbol(found)) => {
            if found {
                PositionStep::FindMonitor(window)
            } else {
                PositionStep::AcquireDeviceContext(window)
            }
        },
        (PositionStep::QueryWindowDpi(_), PositionEvent::WindowDpi(raw)) => {
            PositionStep::SetCompositionWindow(window, window_dpi(raw))
        },
        (PositionStep::FindMonitor(_), PositionEvent::Monitor(monitor)) => {
            if monitor == 0 {
                PositionStep::SetCompositionWindow(window, BASE_DPI)
            } else {
                PositionStep::QueryMonitorDpi(monitor)
            }
        },
        (PositionStep::QueryMonitorDpi(_), PositionEvent::MonitorDpi(status, dpi_x)) => {
            PositionStep::SetCompositionWindow(window, monitor_dpi(true, status, dpi_x))
        },
        (PositionStep::AcquireDeviceContext(_), PositionEvent::DeviceContext(dc)) => {
            if dc == 0 {
                PositionStep::Abort
            } else {
                PositionStep::QueryProcessDpiAware(dc)
            }
        },
        (PositionStep::QueryProcessDpiAware(dc), PositionEvent::ProcessDpiAware(aware)) => {
            if aware {
                PositionStep::QueryDeviceCaps(dc)
            } else {
                PositionStep::SetCompositionWindow(window, device_context_dpi(false, 0))
            }
        },
        (PositionStep::QueryDeviceCaps(_), PositionEvent::DeviceCaps(pixels)) => {
            PositionStep::SetCompositionWindow(window, device_context_dpi(true, pixels))
        },
        (PositionStep::SetCompositionWindow(_, _), PositionEvent::CompositionWindowSet) => {
            PositionStep::Finished
        },
        _ => step,
    }
}

/// One positioning of the composition window of `window`, at `step`.
pub struct Positioning {
    window: usize,
    step: PositionStep,
}

impl Positioning {
    /// The window being served.
    pub closed spec fn spec_window(self) -> usize {
        self.window
    }

    /// The step reached.
    pub closed spec fn spec_step(self) -> PositionStep {
        self.step
    }

    /// A positioning of the composition window of `window`, at its start.
    pub fn start(window: usize) -> (r: Positioning)
        ensures
            r.spec_window() == window,
            r.spec_step() == PositionStep::QueryImeEnabled,
    {
        Positioning { window, step: PositionStep::QueryImeEnabled }
    }

    /// The step reached: the call to make next, or how the positioning ended.
    pub fn step(&self) -> (r: PositionStep)
        ensures
            r == self.spec_step(),
    {
        self.step
    }

    /// Whether the positioning has ended, placed, skipped or aborted.
    pub fn is_done(&self) -> (r: bool)
        ensures
            r == (self.spec_step() is Finished || self.spec_step() is Abort),
    {
        match self.step {
            PositionStep::Finished | PositionStep::Abort => true,
            _ => false,
        }
    }

    /// Moves on with the outcome `event` of the current step's call.
    pub fn advance(&mut self, event: PositionEvent)
        ensures
            final(self).spec_window() == old(self).spec_window(),
            final(self).spec_step() == next_step(
                old(self).spec_window(),
                old(self).spec_step(),
                event,
            ),
    {
        let window = self.window;
        let next = match (self.step, event) {
            (PositionStep::QueryImeEnabled, PositionEvent::ImeEnabled(enabled)) => {
                if enabled {
                    PositionStep::FindWindowDpiSymbol
                } else {
                    PositionStep::Finished
                }
            },
            (PositionStep::FindWindowDpiSymbol, PositionEvent::WindowDpiSymbol(found)) => {
                if found {
                    PositionStep::QueryWindowDpi(window)
                } else {
                    PositionStep::FindMonitorDpiSymbol
                }
            },
            (PositionStep::FindMonitorDpiSymbol, PositionEvent::MonitorDpiSymbol(found)) => {
                if found {
                    PositionStep::FindMonitor(window)
                } else {
                    PositionStep::AcquireDeviceContext(window)
                }
            },
            (PositionStep::QueryWindowDpi(_), PositionEvent::WindowDpi(raw)) => {
                PositionStep::SetCompositionWindow(window, resolve_window_dpi(raw))
            },
            (PositionStep::FindMonitor(_), PositionEvent::Monitor(monitor)) => {
                if monitor_found(monitor) {
                    PositionStep::QueryMonitorDpi(monitor)
                } else {
                    PositionStep::SetCompositionWindow(window, BASE_DPI)
                }
            },
            (PositionStep::QueryMonitorDpi(_), PositionEvent::MonitorDpi(status, dpi_x)) => {
                PositionStep::SetCompositionWindow(window, resolve_monitor_dpi(true, status, dpi_x))
            },
            (PositionStep::AcquireDeviceContext(_), PositionEvent::DeviceContext(dc)) => {
                if dc == 0 {
                    PositionStep::Abort
                } else {
                    PositionStep::QueryProcessDpiAware(dc)
                }
            },
            (PositionStep::QueryProcessDpiAware(dc), PositionEvent::ProcessDpiAware(aware)) => {
                if aware {
                    PositionStep::QueryDeviceCaps(dc)
                } else {
                    PositionStep::SetCompositionWindow(window, resolve_device_context_dpi(false, 0))
                }
            },
            (PositionStep::QueryDeviceCaps(_), PositionEvent::DeviceCaps(pixels)) => {
                PositionStep::SetCompositionWindow(window, resolve_device_context_dpi(true, pixels))
            },
            (PositionStep::SetCompositionWindow(_, _), PositionEvent::CompositionWindowSet) => {
                PositionStep::Finished
            },
            _ => self.step,
        };
        self.step = next;
    }
}

/// The first call made for each DPI facility.
pub open spec fn first_call_of(window: usize, tier: DpiTier) -> PositionStep {
    match tier {
        DpiTier::PerWindow => PositionStep::QueryWindowDpi(window),
        DpiTier::PerMonitor => PositionStep::FindMonitor(window),
        DpiTier::DeviceContext => PositionStep::AcquireDeviceContext(window),
    }
}

/// The DPI facility is picked from the entry points present alone: the
/// per-window query whenever it is present, without asking for the
/// per-monitor one; else the per-monitor query when present; else the device
/// context.
pub proof fn lemma_tier_order(window: usize, per_window: bool, per_monitor: bool)
    ensures
        per_window ==> next_step(
            window,
            PositionStep::FindWindowDpiSymbol,
            PositionEvent::WindowDpiSymbol(per_window),
        ) == first_call_of(window, tier_for(per_window, per_monitor)),
        !per_window ==> next_step(
            window,
            next_step(
                window,
                PositionStep::FindWindowDpiSymbol,
                PositionEvent::WindowDpiSymbol(per_window),
            ),
            PositionEvent::MonitorDpiSymbol(per_monitor),
        ) == first_call_of(window, tier_for(per_window, per_monitor)),
{
}

/// A per-window query that answers zero places the composition window at
/// the baseline DPI, and no answer of it leads to a DPI of zero.
pub proof fn lemma_window_dpi_never_zero(window: usize, asked: usize, raw: u32)
    ensures
        next_step(window, PositionStep::QueryWindowDpi(asked), PositionEvent::WindowDpi(0))
            == PositionStep::SetCompositionWindow(window, BASE_DPI),
        next_step(window, PositionStep::QueryWindowDpi(asked), PositionEvent::WindowDpi(raw))
            == PositionStep::SetCompositionWindow(window, if raw == 0 { BASE_DPI } else { raw }),
        match next_step(window, PositionStep::QueryWindowDpi(asked), PositionEvent::WindowDpi(raw)) {
            PositionStep::SetCompositionWindow(_, dpi) => dpi != 0,
            _ => false,
        },
{
}

/// With no monitor near the window, or a per-monitor query that does not
/// succeed, the composition window is placed at the baseline DPI; a query
/// that succeeds gives its horizontal DPI.
pub proof fn lemma_monitor_failure_is_baseline(
    window: usize,
    monitor: usize,
    status: i32,
    dpi_x: u32,
)
    ensures
        next_step(window, PositionStep::FindMonitor(window), PositionEvent::Monitor(0))
            == PositionStep::SetCompositionWindow(window, BASE_DPI),
        status != QUERY_SUCCEEDED ==> next_step(
            window,
            PositionStep::QueryMonitorDpi(monitor),
            PositionEvent::MonitorDpi(status, dpi_x),
        ) == PositionStep::SetCompositionWindow(window, BASE_DPI),
        status == QUERY_SUCCEEDED ==> next_step(
            window,
            PositionStep::QueryMonitorDpi(monitor),
            PositionEvent::MonitorDpi(status, dpi_x),
        ) == PositionStep::SetCompositionWindow(window, dpi_x),
{
}

/// In a DPI-aware process the device context's value is the DPI; in an
/// unaware one the DPI is the baseline, and the device context is not read.
pub proof fn lemma_device_context_awareness(window: usize, dc: usize, pixels: i32)
    ensures
        next_step(window, PositionStep::QueryProcessDpiAware(dc), PositionEvent::ProcessDpiAware(true))
            == PositionStep::QueryDeviceCaps(dc),
        pixels >= 0 ==> next_step(
            window,
            PositionStep::QueryDeviceCaps(dc),
            PositionEvent::DeviceCaps(pixels),
        ) == PositionStep::SetCompositionWindow(window, pixels as u32),
        next_step(
            window,
            PositionStep::QueryProcessDpiAware(dc),
            PositionEvent::ProcessDpiAware(false),
        ) == PositionStep::SetCompositionWindow(window, BASE_DPI),
{
}

/// With the input method subsystem disabled, a positioning ends at once and
/// asks for no further call, whatever is reported to it afterwards.
pub proof fn lemma_disabled_ime_is_a_no_op(window: usize, later: PositionEvent)
    ensures
        next_step(window, PositionStep::QueryImeEnabled, PositionEvent::ImeEnabled(false))
            == PositionStep::Finished,
        next_step(window, PositionStep::Finished, later) == PositionStep::Finished,
{
}

/// Whether `event` is the outcome of the call that `step` names.
pub open spec fn answers(step: PositionStep, event: PositionEvent) -> bool {
    match (step, event) {
        (PositionStep::QueryImeEnabled, PositionEvent::ImeEnabled(_)) => true,
        (PositionStep::FindWindowDpiSymbol, PositionEvent::WindowDpiSymbol(_)) => true,
        (PositionStep::FindMonitorDpiSymbol, PositionEvent::MonitorDpiSymbol(_)) => true,
        (PositionStep::QueryWindowDpi(_), PositionEvent::WindowDpi(_)) => true,
        (PositionStep::FindMonitor(_), PositionEvent::Monitor(_)) => true,
        (PositionStep::QueryMonitorDpi(_), PositionEvent::MonitorDpi(_, _)) => true,
        (PositionStep::AcquireDeviceContext(_), PositionEvent::DeviceContext(_)) => true,
        (PositionStep::QueryProcessDpiAware(_), PositionEvent::ProcessDpiAware(_)) => true,
        (PositionStep::QueryDeviceCaps(_), PositionEvent::DeviceCaps(_)) => true,
        (PositionStep::SetCompositionWindow(_, _), PositionEvent::CompositionWindowSet) => true,
        _ => false,
    }
}

/// A bound on the number of calls left after `step`.
pub open spec fn calls_left(step: PositionStep) -> nat {
    match step {
        PositionStep::QueryImeEnabled => 7,
        PositionStep::FindWindowDpiSymbol => 6,
        PositionStep::FindMonitorDpiSymbol => 5,
        PositionStep::AcquireDeviceContext(_) => 4,
        PositionStep::FindMonitor(_) => 3,
        PositionStep::QueryProcessDpiAware(_) => 3,
        PositionStep::QueryWindowDpi(_) => 2,
        PositionStep::QueryMonitorDpi(_) => 2,
        PositionStep::QueryDeviceCaps(_) => 2,
        PositionStep::SetCompositionWindow(_, _) => 1,
        PositionStep::Finished => 0,
        PositionStep::Abort => 0,
    }
}

/// A positioning ends: every step but the two final ones names a call, and
/// reporting that call's outcome brings the positioning closer to its end,
/// so at most seven calls are made.
pub proof fn lemma_positioning_ends(window: usize, step: PositionStep, event: PositionEvent)
    ensures
        (step is Finished || step is Abort) <==> calls_left(step) == 0,
        calls_left(step) <= 7,
        answers(step, event) ==> calls_left(next_step(window, step, event)) < calls_left(step),
{
}

} // verus!
