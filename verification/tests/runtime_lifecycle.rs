use fluxel_host::runtime::lifecycle::{
    exiting_events, resumed_events, suspended_events, translate_window_event,
    PlatformWindowEvent,
};
use fluxel_host::WindowEvent;

#[test]
fn first_resume_with_a_window_creates_the_surface() {
    assert_eq!(
        resumed_events(false, true),
        (true, vec![WindowEvent::SurfaceCreated, WindowEvent::Resumed])
    );
    assert_eq!(resumed_events(true, true), (true, vec![WindowEvent::Resumed]));
    assert_eq!(resumed_events(false, false), (false, vec![]));
}

#[test]
fn suspension_revokes_a_live_surface() {
    assert_eq!(
        suspended_events(true, true),
        (false, vec![WindowEvent::Suspended, WindowEvent::SurfaceDestroyed])
    );
    assert_eq!(suspended_events(false, true), (false, vec![WindowEvent::Suspended]));
    assert_eq!(suspended_events(false, false), (false, vec![]));
}

#[test]
fn exiting_revokes_a_live_surface_once() {
    assert_eq!(exiting_events(true), (false, vec![WindowEvent::SurfaceDestroyed]));
    assert_eq!(exiting_events(false), (false, vec![]));
}

#[test]
fn only_the_application_window_events_are_translated() {
    assert_eq!(
        translate_window_event(true, PlatformWindowEvent::Resized { width: 800, height: 600 }),
        (Some(WindowEvent::Resized { width: 800, height: 600 }), false)
    );
    assert_eq!(
        translate_window_event(true, PlatformWindowEvent::RedrawRequested),
        (Some(WindowEvent::RedrawRequested), false)
    );
    assert_eq!(
        translate_window_event(true, PlatformWindowEvent::CloseRequested),
        (Some(WindowEvent::CloseRequested), true)
    );
    assert_eq!(translate_window_event(true, PlatformWindowEvent::Other), (None, false));
    assert_eq!(
        translate_window_event(false, PlatformWindowEvent::CloseRequested),
        (None, false)
    );
}

#[test]
fn a_resume_suspend_cycle_alternates_surface_events() {
    let mut live = false;
    let mut delivered = Vec::new();
    for step in 0..3 {
        let (now, events) = resumed_events(live, true);
        live = now;
        delivered.extend(events);
        let (now, events) = suspended_events(live, step != 1);
        live = now;
        delivered.extend(events);
    }
    let (now, events) = exiting_events(live);
    assert!(!now);
    delivered.extend(events);
    let surface: Vec<WindowEvent> = delivered
        .into_iter()
        .filter(|e| matches!(e, WindowEvent::SurfaceCreated | WindowEvent::SurfaceDestroyed))
        .collect();
    assert_eq!(
        surface,
        vec![
            WindowEvent::SurfaceCreated,
            WindowEvent::SurfaceDestroyed,
            WindowEvent::SurfaceCreated,
            WindowEvent::SurfaceDestroyed,
            WindowEvent::SurfaceCreated,
            WindowEvent::SurfaceDestroyed,
        ]
    );
}

#[test]
fn runtime_error_keeps_its_message() {
    let error = fluxel_host::HostRuntimeError::from_message("no display");
    assert_eq!(error.message(), "no display");
    assert_eq!(fluxel_host::runtime::host::MAX_WINDOW_SIDE, 65535);
}

struct CountingApplication {
    events: Vec<WindowEvent>,
}

impl fluxel_host::HostApplication for CountingApplication {
    fn received(&self) -> fluxel_host::CallbackHistory {
        unreachable!()
    }

    fn stop_requests(&self) -> fluxel_host::StopHistory {
        unreachable!()
    }

    fn resumed(&mut self, host: &mut fluxel_host::HostContext<'_>) {
        let _ = host.window();
    }

    fn window_event(&mut self, _host: &mut fluxel_host::HostContext<'_>, event: WindowEvent) {
        self.events.push(event);
    }
}

#[test]
fn applications_implement_the_callbacks_only() {
    let runner = fluxel_host::Runner::new(CountingApplication { events: Vec::new() });
    drop(runner);
}
