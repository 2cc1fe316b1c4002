use fluxel_host::window::win32::{
    message_disposition, MessageDisposition, Win32HandleParts, WindowState, SIZE_MINIMIZED,
    SIZE_RESTORED, WM_CLOSE, WM_DESTROY, WM_NCDESTROY, WM_SIZE,
};
use fluxel_host::WindowEvent;
use raw_window_handle::HandleError;

const LIVE_HWND: isize = 0x1000;

#[test]
fn close_request_does_not_destroy_the_native_window_intent() {
    let mut state = WindowState::new(Some(LIVE_HWND), 0);

    state.request_close();

    assert!(state.close_requested());
    assert!(state.hwnd().is_some());
}

#[test]
fn native_destruction_makes_repeated_close_idempotent() {
    let mut state = WindowState::new(Some(LIVE_HWND), 0);

    let event = state.size_event(2, (240_isize << 16) | 320);
    state.push_event(event);
    state.native_destroyed();
    state.request_close();

    assert!(state.close_requested());
    assert_eq!(state.hwnd(), None);
    assert_eq!(
        state.take_events(),
        vec![
            WindowEvent::Resized {
                width: 320,
                height: 240,
            },
            WindowEvent::CloseRequested,
        ]
    );
}

#[test]
fn ordered_size_events_preserve_resize_minimize_restore_and_zero_extent() {
    let mut state = WindowState::new(None, 0);

    // Win32 reports ordinary drag-resizes as SIZE_RESTORED too; without a
    // preceding minimize they remain ordinary Resized events.
    let event = state.size_event(SIZE_RESTORED as usize, (480_isize << 16) | 640);
    state.push_event(event);
    let event = state.size_event(SIZE_MINIMIZED as usize, 0);
    state.push_event(event);
    let event = state.size_event(SIZE_RESTORED as usize, 0);
    state.push_event(event);
    let event = state.size_event(2, (720_isize << 16) | 1280);
    state.push_event(event);

    assert_eq!(
        state.take_events(),
        vec![
            WindowEvent::Resized {
                width: 640,
                height: 480,
            },
            WindowEvent::Minimized,
            WindowEvent::Restored {
                width: 0,
                height: 0,
            },
            WindowEvent::Resized {
                width: 1280,
                height: 720,
            },
        ]
    );
}

#[test]
fn queued_win32_messages_emit_events_in_dispatch_order() {
    let mut state = WindowState::new(Some(LIVE_HWND), 0);
    let resize = (240_isize << 16) | 320;

    assert_eq!(state.handle_message(WM_SIZE, 2, resize), MessageDisposition::Handled);
    assert_eq!(state.handle_message(WM_CLOSE, 0, 0), MessageDisposition::Handled);

    assert_eq!(
        state.take_events(),
        vec![
            WindowEvent::Resized {
                width: 320,
                height: 240,
            },
            WindowEvent::CloseRequested,
        ]
    );
    assert!(state.close_requested());
    assert!(state.take_events().is_empty());
}

#[test]
fn close_message_preserves_window_until_explicit_close() {
    let mut state = WindowState::new(Some(LIVE_HWND), 0x400000);

    state.handle_message(WM_CLOSE, 0, 0);
    assert_eq!(state.take_events(), vec![WindowEvent::CloseRequested]);
    assert!(state.close_requested());
    assert!(matches!(
        state.handle_parts(),
        Ok(Win32HandleParts {
            hwnd: LIVE_HWND,
            hinstance: Some(0x400000),
        })
    ));

    // What DestroyWindow dispatches for an explicit close.
    state.request_close();
    state.handle_message(WM_DESTROY, 0, 0);
    state.handle_message(WM_NCDESTROY, 0, 0);
    assert!(matches!(state.handle_parts(), Err(HandleError::Unavailable)));
    assert!(state.take_events().is_empty());
}

#[test]
fn destroy_message_appends_one_terminal_event_after_prior_resize() {
    let mut state = WindowState::new(Some(LIVE_HWND), 0);

    state.handle_message(WM_SIZE, 2, (400_isize << 16) | 800);
    state.handle_message(WM_DESTROY, 0, 0);
    assert_eq!(
        state.take_events(),
        vec![
            WindowEvent::Resized {
                width: 800,
                height: 400,
            },
            WindowEvent::CloseRequested,
        ]
    );

    // A later explicit close dispatches a second terminal message, which is
    // not reported again.
    state.request_close();
    state.handle_message(WM_DESTROY, 0, 0);
    state.handle_message(WM_NCDESTROY, 0, 0);
    assert!(state.take_events().is_empty());
    assert_eq!(state.hwnd(), None);
}

#[test]
fn every_terminal_message_is_reported_once() {
    let mut state = WindowState::new(Some(LIVE_HWND), 0);
    state.handle_message(WM_CLOSE, 0, 0);
    state.handle_message(WM_CLOSE, 0, 0);
    state.handle_message(WM_DESTROY, 0, 0);
    state.handle_message(WM_NCDESTROY, 0, 0);
    assert_eq!(state.take_events(), vec![WindowEvent::CloseRequested]);
}

#[test]
fn owner_close_before_native_messages_reports_nothing() {
    let mut state = WindowState::new(Some(LIVE_HWND), 0);
    state.request_close();
    state.handle_message(WM_DESTROY, 0, 0);
    state.handle_message(WM_NCDESTROY, 0, 0);
    assert!(state.take_events().is_empty());
    assert!(state.close_requested());
    assert_eq!(state.hwnd(), None);
}

#[test]
fn other_messages_go_to_the_default_procedure_and_change_nothing() {
    let mut state = WindowState::new(Some(LIVE_HWND), 0);
    assert_eq!(state.handle_message(0x000F, 0, 0), MessageDisposition::Default);
    assert_eq!(state.handle_message(0x0081, 0, 0), MessageDisposition::Default);
    assert!(state.take_events().is_empty());
    assert!(!state.close_requested());
    assert_eq!(message_disposition(WM_SIZE), MessageDisposition::Handled);
    assert_eq!(message_disposition(WM_CLOSE), MessageDisposition::Handled);
    assert_eq!(message_disposition(WM_DESTROY), MessageDisposition::Handled);
    assert_eq!(message_disposition(WM_NCDESTROY), MessageDisposition::Handled);
    assert_eq!(message_disposition(0x0200), MessageDisposition::Default);
}

#[test]
fn size_words_are_taken_from_the_low_32_bits() {
    let mut state = WindowState::new(None, 0);
    // Only the low and high words of the packed value matter.
    assert_eq!(
        state.size_event(2, -1),
        WindowEvent::Resized {
            width: 0xffff,
            height: 0xffff,
        }
    );
    // The kind is read from the low 32 bits of WPARAM.
    assert_eq!(state.size_event((1usize << 32) | 1, 0), WindowEvent::Minimized);
    assert_eq!(
        state.size_event(SIZE_RESTORED as usize, 7 | (9 << 16)),
        WindowEvent::Restored {
            width: 7,
            height: 9,
        }
    );
    assert_eq!(
        state.size_event(SIZE_RESTORED as usize, 7 | (9 << 16)),
        WindowEvent::Resized {
            width: 7,
            height: 9,
        }
    );
}

#[test]
fn handle_parts_require_a_live_non_null_hwnd() {
    assert!(matches!(
        WindowState::new(None, 5).handle_parts(),
        Err(HandleError::Unavailable)
    ));
    assert!(matches!(
        WindowState::new(Some(0), 5).handle_parts(),
        Err(HandleError::Unavailable)
    ));
    assert!(matches!(
        WindowState::new(Some(LIVE_HWND), 0).handle_parts(),
        Ok(Win32HandleParts {
            hwnd: LIVE_HWND,
            hinstance: None,
        })
    ));
    let mut state = WindowState::new(None, 5);
    state.set_hwnd(LIVE_HWND);
    assert_eq!(state.hinstance(), 5);
    assert!(matches!(
        state.handle_parts(),
        Ok(Win32HandleParts {
            hwnd: LIVE_HWND,
            hinstance: Some(5),
        })
    ));
}

#[test]
fn native_destruction_revokes_the_handle_for_good() {
    let mut state = WindowState::new(Some(LIVE_HWND), 0x400000);
    state.handle_message(WM_NCDESTROY, 0, 0);
    state.handle_message(WM_SIZE, 2, (240_isize << 16) | 320);
    state.handle_message(WM_CLOSE, 0, 0);
    state.request_close();
    assert!(matches!(state.handle_parts(), Err(HandleError::Unavailable)));
    assert!(state.close_requested());
    assert_eq!(
        state.take_events(),
        vec![
            WindowEvent::CloseRequested,
            WindowEvent::Resized {
                width: 320,
                height: 240,
            },
        ]
    );
}

#[test]
fn begin_close_destroys_a_live_window_once() {
    let mut state = WindowState::new(Some(LIVE_HWND), 0);

    assert_eq!(state.begin_close(), Some(LIVE_HWND));
    assert!(state.close_requested());
    assert!(state.take_events().is_empty());

    state.native_destroyed();
    assert_eq!(state.begin_close(), None);
    assert!(state.take_events().is_empty());
}
