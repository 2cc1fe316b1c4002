use fluxel_host::window::unsupported::UnsupportedWindow;
use fluxel_host::{WindowConfig, WindowError};

#[test]
fn every_window_operation_reports_the_explicit_unsupported_contract() {
    let config = WindowConfig::new("unsupported", 320, 240).unwrap();
    assert!(matches!(
        UnsupportedWindow::new(config),
        Err(WindowError::UnsupportedPlatform)
    ));

    // `new` cannot construct a target that does not exist. A detached value
    // checks that the remaining operations cannot silently succeed.
    let mut window = UnsupportedWindow::detached();
    assert_eq!(
        window.poll_events().unwrap_err(),
        WindowError::UnsupportedPlatform
    );
    assert!(!window.close_requested());
    assert_eq!(
        window.close().unwrap_err(),
        WindowError::UnsupportedPlatform
    );
    assert!(window.window_handle().is_err());
    assert!(window.display_handle().is_err());
}
