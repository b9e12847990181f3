use ime::dpi::{resolve_device_context_dpi, resolve_monitor_dpi, resolve_window_dpi, BASE_DPI};
use ime::platform::{Backend, WindowHandle, WindowSystem};
use ime::positioner::{PositionEvent, PositionStep, Positioning};
use ime::IME;

const HWND: usize = 0x1234;

fn connected() -> IME {
    let handle = WindowHandle { system: WindowSystem::Windows, window: HWND };
    match IME::connect(Backend::Windows, handle) {
        Ok(ime) => ime,
        Err(_) => panic!("a Windows handle must connect"),
    }
}

fn drive(events: &[PositionEvent]) -> Positioning {
    let mut p = connected().set_position();
    for e in events {
        p.advance(*e);
    }
    p
}

fn physical(x: f32, y: f32, dpi: u32) -> (i32, i32) {
    let s = (dpi as f64 / 96.0) as f32;
    ((x * s) as i32, (y * s) as i32)
}

#[test]
fn tier_selection_prefers_newest() {
    let on = PositionEvent::ImeEnabled(true);
    let p = drive(&[on, PositionEvent::WindowDpiSymbol(true)]);
    assert_eq!(p.step(), PositionStep::QueryWindowDpi(HWND));
    let p = drive(&[on, PositionEvent::WindowDpiSymbol(false)]);
    assert_eq!(p.step(), PositionStep::FindMonitorDpiSymbol);
    let p = drive(&[on, PositionEvent::WindowDpiSymbol(false), PositionEvent::MonitorDpiSymbol(true)]);
    assert_eq!(p.step(), PositionStep::FindMonitor(HWND));
    let p = drive(&[on, PositionEvent::WindowDpiSymbol(false), PositionEvent::MonitorDpiSymbol(false)]);
    assert_eq!(p.step(), PositionStep::AcquireDeviceContext(HWND));
}

#[test]
fn window_dpi_zero_is_baseline() {
    assert_eq!(resolve_window_dpi(0), 96);
    assert_eq!(resolve_window_dpi(120), 120);
    assert_eq!(BASE_DPI, 96);
}

#[test]
fn monitor_failures_are_baseline() {
    assert_eq!(resolve_monitor_dpi(false, 0, 144), 96);
    assert_eq!(resolve_monitor_dpi(true, -2147024809, 144), 96);
    assert_eq!(resolve_monitor_dpi(true, 0, 144), 144);
}

#[test]
fn device_context_awareness() {
    assert_eq!(resolve_device_context_dpi(true, 144), 144);
    assert_eq!(resolve_device_context_dpi(true, 96), 96);
    assert_eq!(resolve_device_context_dpi(false, 144), 96);
    assert_eq!(resolve_device_context_dpi(false, 192), 96);
}

#[test]
fn starts_by_asking_whether_ime_is_enabled() {
    let p = connected().set_position();
    assert_eq!(p.step(), PositionStep::QueryImeEnabled);
    assert!(!p.is_done());
}

#[test]
fn scenario_device_context_aware_144() {
    let p = drive(&[
        PositionEvent::ImeEnabled(true),
        PositionEvent::WindowDpiSymbol(false),
        PositionEvent::MonitorDpiSymbol(false),
        PositionEvent::DeviceContext(0x77),
        PositionEvent::ProcessDpiAware(true),
        PositionEvent::DeviceCaps(144),
    ]);
    assert_eq!(p.step(), PositionStep::SetCompositionWindow(HWND, 144));
    assert_eq!(physical(10.0, 20.0, 144), (15, 30));
}

#[test]
fn scenario_window_dpi_zero() {
    let p = drive(&[
        PositionEvent::ImeEnabled(true),
        PositionEvent::WindowDpiSymbol(true),
        PositionEvent::WindowDpi(0),
    ]);
    assert_eq!(p.step(), PositionStep::SetCompositionWindow(HWND, 96));
    assert_eq!(physical(50.0, 50.0, 96), (50, 50));
}

#[test]
fn scenario_ime_disabled() {
    let mut p = drive(&[PositionEvent::ImeEnabled(false)]);
    assert_eq!(p.step(), PositionStep::Finished);
    assert!(p.is_done());
    p.advance(PositionEvent::WindowDpiSymbol(true));
    assert_eq!(p.step(), PositionStep::Finished);
}

#[test]
fn monitor_tier_paths() {
    let a = PositionEvent::ImeEnabled(true);
    let b = PositionEvent::WindowDpiSymbol(false);
    let c = PositionEvent::MonitorDpiSymbol(true);
    let p = drive(&[a, b, c]);
    assert_eq!(p.step(), PositionStep::FindMonitor(HWND));
    let p = drive(&[a, b, c, PositionEvent::Monitor(0)]);
    assert_eq!(p.step(), PositionStep::SetCompositionWindow(HWND, 96));
    let p = drive(&[a, b, c, PositionEvent::Monitor(9), PositionEvent::MonitorDpi(1, 144)]);
    assert_eq!(p.step(), PositionStep::SetCompositionWindow(HWND, 96));
    let mut p = drive(&[a, b, c, PositionEvent::Monitor(9)]);
    assert_eq!(p.step(), PositionStep::QueryMonitorDpi(9));
    p.advance(PositionEvent::MonitorDpi(0, 120));
    assert_eq!(p.step(), PositionStep::SetCompositionWindow(HWND, 120));
    p.advance(PositionEvent::CompositionWindowSet);
    assert_eq!(p.step(), PositionStep::Finished);
}

#[test]
fn device_context_unaware_and_missing() {
    let p = drive(&[
        PositionEvent::ImeEnabled(true),
        PositionEvent::WindowDpiSymbol(false),
        PositionEvent::MonitorDpiSymbol(false),
        PositionEvent::DeviceContext(0x77),
        PositionEvent::ProcessDpiAware(false),
    ]);
    assert_eq!(p.step(), PositionStep::SetCompositionWindow(HWND, 96));
    let p = drive(&[
        PositionEvent::ImeEnabled(true),
        PositionEvent::WindowDpiSymbol(false),
        PositionEvent::MonitorDpiSymbol(false),
        PositionEvent::DeviceContext(0),
    ]);
    assert_eq!(p.step(), PositionStep::Abort);
    assert!(p.is_done());
}

#[test]
fn unanswering_event_changes_nothing() {
    let mut p = drive(&[PositionEvent::ImeEnabled(true)]);
    assert_eq!(p.step(), PositionStep::FindWindowDpiSymbol);
    p.advance(PositionEvent::WindowDpi(120));
    assert_eq!(p.step(), PositionStep::FindWindowDpiSymbol);
}
