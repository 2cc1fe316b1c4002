use core::ptr::NonNull;

use fluxel_host::window::adopted::AdoptedWindow;
use fluxel_host::{WindowConfig, WindowError, WindowEvent};
use raw_window_handle::HandleError;

#[test]
fn adopted_window_reports_ordered_lifecycle_and_revokes_handle_on_destroy() {
    // No Android API is dereferenced: the host contract stores and returns
    // the opaque handle only while the test-controlled lifecycle is live.
    let native = NonNull::<u8>::dangling();
    let mut window = AdoptedWindow::adopt(native);
    assert_eq!(window.window_handle().unwrap(), native);
    assert_eq!(
        window.poll_events().unwrap(),
        vec![WindowEvent::SurfaceCreated]
    );

    window.resized(320, 240);
    window.suspended();
    window.resumed();
    window.redraw_requested();
    window.surface_destroyed();
    window.surface_destroyed();
    assert_eq!(
        window.poll_events().unwrap(),
        vec![
            WindowEvent::Resized {
                width: 320,
                height: 240,
            },
            WindowEvent::Suspended,
            WindowEvent::Resumed,
            WindowEvent::RedrawRequested,
            WindowEvent::SurfaceDestroyed,
        ]
    );
    assert!(matches!(
        window.window_handle(),
        Err(HandleError::Unavailable)
    ));
}

#[test]
fn adopted_view_reports_ordered_lifecycle_and_revokes_handle_on_destroy() {
    // No UIKit object is messaged: this validates only the opaque-handle
    // lifetime contract that a real UIKit owner must uphold.
    let view = NonNull::<u8>::dangling();
    let mut window = AdoptedWindow::adopt(view);
    assert_eq!(window.window_handle().unwrap(), view);
    assert_eq!(
        window.poll_events().unwrap(),
        vec![WindowEvent::SurfaceCreated]
    );

    window.resized(640, 480);
    window.suspended();
    window.resumed();
    window.redraw_requested();
    window.surface_destroyed();
    assert_eq!(
        window.poll_events().unwrap(),
        vec![
            WindowEvent::Resized {
                width: 640,
                height: 480,
            },
            WindowEvent::Suspended,
            WindowEvent::Resumed,
            WindowEvent::RedrawRequested,
            WindowEvent::SurfaceDestroyed,
        ]
    );
    assert!(matches!(
        window.window_handle(),
        Err(HandleError::Unavailable)
    ));
}

#[test]
fn adopted_window_cannot_be_created_by_the_host() {
    let config = WindowConfig::new("adopted", 320, 240).unwrap();
    assert!(matches!(
        AdoptedWindow::<usize>::new(config),
        Err(WindowError::UnsupportedPlatform)
    ));
}

#[test]
fn close_reports_once_and_ends_the_drawable_interval() {
    let mut window = AdoptedWindow::adopt(7usize);
    assert!(!window.close_requested());
    assert!(matches!(window.window_handle(), Ok(7)));

    assert_eq!(window.close(), Ok(()));
    assert_eq!(window.close(), Ok(()));
    assert!(window.close_requested());
    assert!(matches!(window.window_handle(), Err(HandleError::Unavailable)));
    assert_eq!(
        window.poll_events().unwrap(),
        vec![
            WindowEvent::SurfaceCreated,
            WindowEvent::CloseRequested,
            WindowEvent::SurfaceDestroyed,
        ]
    );
    assert_eq!(window.poll_events().unwrap(), vec![]);
}

#[test]
fn close_after_surface_destruction_reports_only_the_close() {
    let mut window = AdoptedWindow::adopt(3u32);
    window.surface_destroyed();
    window.close().unwrap();
    assert_eq!(
        window.poll_events().unwrap(),
        vec![
            WindowEvent::SurfaceCreated,
            WindowEvent::SurfaceDestroyed,
            WindowEvent::CloseRequested,
        ]
    );
}
