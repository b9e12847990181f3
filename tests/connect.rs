use ime::platform::{Backend, ConnectError, IMEImpl, WindowHandle, WindowSystem};
use ime::IME;

#[test]
fn connect_binds_windows_handle() {
    let h = WindowHandle { system: WindowSystem::Windows, window: 42 };
    match IME::connect(Backend::Windows, h) {
        Ok(ime) => assert_eq!(ime.window(), 42),
        Err(_) => panic!("expected a context"),
    }
}

#[test]
fn connect_rejects_foreign_handle() {
    for system in [WindowSystem::Xlib, WindowSystem::Wayland, WindowSystem::MacOS, WindowSystem::Web] {
        let h = WindowHandle { system, window: 42 };
        assert!(matches!(IME::connect(Backend::Windows, h), Err(ConnectError::PlatformNotMatched)));
        assert!(matches!(IMEImpl::new(h), Err(ConnectError::PlatformNotMatched)));
    }
}

#[test]
fn connect_on_unsupported_platform() {
    let h = WindowHandle { system: WindowSystem::Windows, window: 42 };
    assert!(matches!(IME::connect(Backend::Unsupported, h), Err(ConnectError::PlatformNotSupported)));
    let h = WindowHandle { system: WindowSystem::Xcb, window: 42 };
    assert!(matches!(IME::connect(Backend::Unsupported, h), Err(ConnectError::PlatformNotSupported)));
}

#[test]
fn error_messages() {
    assert_eq!(ConnectError::PlatformNotSupported.message(), "Platform not supported");
    assert_eq!(ConnectError::PlatformNotMatched.message(), "Platform not matched");
}

#[test]
fn backend_context_window() {
    let h = WindowHandle { system: WindowSystem::Windows, window: 7 };
    let ime_impl = IMEImpl::new(h).unwrap();
    assert_eq!(ime_impl.window(), 7);
    assert_eq!(ime_impl.set_position().step(), ime::positioner::PositionStep::QueryImeEnabled);
}
