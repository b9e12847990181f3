//! DPI resolution: which OS facility to ask, and what its answer means.
use vstd::prelude::*;

verus! {

/// The reference density at which one logical unit is one physical pixel.
pub const BASE_DPI: u32 = 96;

/// The status that the per-monitor query reports on success (`S_OK`).
pub const QUERY_SUCCEEDED: i32 = 0;

/// The three facilities that can report a DPI, newest first.
#[derive(Clone, Copy, Debug, PartialEq, Eq, Structural)]
pub enum DpiTier {
    /// Ask the window itself (`GetDpiForWindow`).
    PerWindow,
    /// Ask the monitor nearest to the window (`GetDpiForMonitor`).
    PerMonitor,
    /// Read the pixels per logical inch of the window's device context.
    DeviceContext,
}

/// The facility used when the per-window and per-monitor entry points are or
/// are not present: the newest one that is present.
pub open spec fn tier_for(window_symbol: bool, monitor_symbol: bool) -> DpiTier {
    if window_symbol {
        DpiTier::PerWindow
    } else if monitor_symbol {
        DpiTier::PerMonitor
    } else {
        DpiTier::DeviceContext
    }
}

/// The DPI that a per-window query answering `raw` stands for; zero is the
/// answer for an invalid window.
pub open spec fn window_dpi(raw: u32) -> u32 {
    if raw == 0 {
        BASE_DPI
    } else {
        raw
    }
}

/// The DPI that a per-monitor lookup stands for: the horizontal DPI when a
/// monitor was found and the query succeeded, the baseline otherwise.
pub open spec fn monitor_dpi(monitor_found: bool, status: i32, dpi_x: u32) -> u32 {
    if monitor_found && status == QUERY_SUCCEEDED {
        dpi_x
    } else {
        BASE_DPI
    }
}

/// The DPI that the device context stands for: its own value in a DPI-aware
/// process, the baseline in an unaware one, which the OS scales itself.
pub open spec fn device_context_dpi(process_dpi_aware: bool, logical_pixels_x: i32) -> u32 {
    if process_dpi_aware {
        logical_pixels_x as u32
    } else {
        BASE_DPI
    }
}

/// The DPI for the answer `raw` of the per-window query.
pub fn resolve_window_dpi(raw: u32) -> (r: u32)
    ensures
        r == window_dpi(raw),
        r != 0,
{
    if raw == 0 {
        BASE_DPI
    } else {
        raw
    }
}

/// Whether the per-monitor DPI is worth querying for the monitor handle
/// `monitor` (zero when no monitor was found).
pub fn monitor_found(monitor: usize) -> (r: bool)
    ensures
        r == (monitor != 0),
{
    monitor != 0
}

/// The DPI for a per-monitor lookup: whether a monitor was found, and the
/// status and horizontal DPI of the query made on it.
pub fn resolve_monitor_dpi(monitor_found: bool, status: i32, dpi_x: u32) -> (r: u32)
    ensures
        r == monitor_dpi(monitor_found, status, dpi_x),
{
    if monitor_found && status == QUERY_SUCCEEDED {
        dpi_x
    } else {
        BASE_DPI
    }
}

/// The DPI read from the window's device context, given whether the process
/// has declared itself DPI-aware.
pub fn resolve_device_context_dpi(process_dpi_aware: bool, logical_pixels_x: i32) -> (r: u32)
    ensures
        r == device_context_dpi(process_dpi_aware, logical_pixels_x),
        logical_pixels_x >= 0 && process_dpi_aware ==> r == logical_pixels_x,
{
    if process_dpi_aware {
        logical_pixels_x as u32
    } else {
        BASE_DPI
    }
}

} // verus!
