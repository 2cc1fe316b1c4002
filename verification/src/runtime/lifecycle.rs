//! The decisions of the event-driven runtime: which host events a platform
//! callback produces, given whether the application holds a window and
//! whether its drawable is currently live.

use vstd::prelude::*;

use crate::window::WindowEvent;

verus! {

/// A window event as the platform event loop reports it, before translation.
#[derive(Clone, Copy, Debug, PartialEq, Eq, Structural)]
pub enum PlatformWindowEvent {
    /// The window's drawable changed to this physical size.
    Resized { width: u32, height: u32 },
    /// The platform asked for a frame.
    RedrawRequested,
    /// The user or system asked the window to close.
    CloseRequested,
    /// Any other window event, which the host does not forward.
    Other,
}

/// The new liveness and the events of a resume, given whether the application
/// holds a window after its `resumed` callback.
pub open spec fn spec_resumed(live: bool, has_window: bool) -> (bool, Seq<WindowEvent>) {
    if has_window && !live {
        (true, seq![WindowEvent::SurfaceCreated, WindowEvent::Resumed])
    } else if has_window {
        (live, seq![WindowEvent::Resumed])
    } else {
        (live, seq![])
    }
}

/// The new liveness and the events of a suspension.
pub open spec fn spec_suspended(live: bool, has_window: bool) -> (bool, Seq<WindowEvent>) {
    let suspended: Seq<WindowEvent> = if has_window {
        seq![WindowEvent::Suspended]
    } else {
        seq![]
    };
    if live {
        (false, suspended.push(WindowEvent::SurfaceDestroyed))
    } else {
        (live, suspended)
    }
}

/// The new liveness and the events when the event loop exits.
pub open spec fn spec_exiting(live: bool) -> (bool, Seq<WindowEvent>) {
    if live {
        (false, seq![WindowEvent::SurfaceDestroyed])
    } else {
        (live, seq![])
    }
}

/// The host event for a platform window event, and whether the loop must
/// stop; events of windows other than the application's are dropped.
pub open spec fn spec_translate(own_window: bool, event: PlatformWindowEvent) -> (Option<WindowEvent>, bool) {
    if !own_window {
        (None, false)
    } else {
        match event {
            PlatformWindowEvent::Resized { width, height } => (
                Some(WindowEvent::Resized { width, height }),
                false,
            ),
            PlatformWindowEvent::RedrawRequested => (Some(WindowEvent::RedrawRequested), false),
            PlatformWindowEvent::CloseRequested => (Some(WindowEvent::CloseRequested), true),
            PlatformWindowEvent::Other => (None, false),
        }
    }
}

/// One platform callback that the runtime answers.
pub enum RuntimeInput {
    /// The platform resumed; `has_window` says whether the application holds
    /// a window once its `resumed` callback has returned.
    Resumed { has_window: bool },
    /// The platform suspended; `has_window` says whether a window exists.
    Suspended { has_window: bool },
    /// A window event arrived; `own_window` says whether it concerns the
    /// application's window.
    Window { own_window: bool, event: PlatformWindowEvent },
    /// The event loop is exiting.
    Exiting,
}

/// The new liveness and the events that one callback produces.
pub open spec fn runtime_step(live: bool, input: RuntimeInput) -> (bool, Seq<WindowEvent>) {
    match input {
        RuntimeInput::Resumed { has_window } => spec_resumed(live, has_window),
        RuntimeInput::Suspended { has_window } => spec_suspended(live, has_window),
        RuntimeInput::Window { own_window, event } => (
            live,
            match spec_translate(own_window, event).0 {
                Some(e) => seq![e],
                None => seq![],
            },
        ),
        RuntimeInput::Exiting => spec_exiting(live),
    }
}

/// Whether the application holds a window after one callback, given whether
/// it held one before.
pub open spec fn window_after(window: bool, input: RuntimeInput) -> bool {
    match input {
        RuntimeInput::Resumed { has_window } => has_window,
        _ => window,
    }
}

/// Whether a callback can follow a state in which the application holds a
/// window or not: a window, once created, is never taken away; only resumes
/// may create one; suspensions see the window as it is; and only an existing
/// window can own a window event.
pub open spec fn input_fits(window: bool, input: RuntimeInput) -> bool {
    match input {
        RuntimeInput::Resumed { has_window } => window ==> has_window,
        RuntimeInput::Suspended { has_window } => has_window == window,
        RuntimeInput::Window { own_window, .. } => own_window ==> window,
        RuntimeInput::Exiting => true,
    }
}

/// Decides a resume: the drawable becomes live when a window exists, and every
/// resume with a window is reported.
pub fn resumed_events(live: bool, has_window: bool) -> (outcome: (bool, Vec<WindowEvent>))
    ensures
        (outcome.0, outcome.1@) == spec_resumed(live, has_window),
{
    let mut events: Vec<WindowEvent> = Vec::new();
    let mut now_live = live;
    if has_window && !live {
        now_live = true;
        events.push(WindowEvent::SurfaceCreated);
    }
    if has_window {
        events.push(WindowEvent::Resumed);
    }
    proof {
        if has_window && !live {
            assert(events@ == seq![WindowEvent::SurfaceCreated, WindowEvent::Resumed]);
        } else if has_window {
            assert(events@ == seq![WindowEvent::Resumed]);
        } else {
            assert(events@ == Seq::<WindowEvent>::empty());
        }
    }
    (now_live, events)
}

/// Decides a suspension: a window hears of it, and a live drawable is revoked.
pub fn suspended_events(live: bool, has_window: bool) -> (outcome: (bool, Vec<WindowEvent>))
    ensures
        (outcome.0, outcome.1@) == spec_suspended(live, has_window),
{
    let mut events: Vec<WindowEvent> = Vec::new();
    let mut now_live = live;
    if has_window {
        events.push(WindowEvent::Suspended);
    }
    if live {
        now_live = false;
        events.push(WindowEvent::SurfaceDestroyed);
    }
    (now_live, events)
}

/// Decides the loop's exit: a live drawable is revoked.
pub fn exiting_events(live: bool) -> (outcome: (bool, Vec<WindowEvent>))
    ensures
        (outcome.0, outcome.1@) == spec_exiting(live),
{
    let mut events: Vec<WindowEvent> = Vec::new();
    if live {
        events.push(WindowEvent::SurfaceDestroyed);
        assert(events@ == seq![WindowEvent::SurfaceDestroyed]);
        (false, events)
    } else {
        (live, events)
    }
}

/// Translates a platform window event of the application's window (`own_window`)
/// into the host event it reports, and says whether the loop must stop.
pub fn translate_window_event(own_window: bool, event: PlatformWindowEvent) -> (outcome: (
    Option<WindowEvent>,
    bool,
))
    ensures
        outcome == spec_translate(own_window, event),
        !own_window ==> outcome == (None::<WindowEvent>, false),
        own_window ==> match event {
            PlatformWindowEvent::Resized { width, height } => outcome == (
                Some(WindowEvent::Resized { width, height }),
                false,
            ),
            PlatformWindowEvent::RedrawRequested => outcome == (Some(WindowEvent::RedrawRequested), false),
            PlatformWindowEvent::CloseRequested => outcome == (Some(WindowEvent::CloseRequested), true),
            PlatformWindowEvent::Other => outcome == (None::<WindowEvent>, false),
        },
{
    if !own_window {
        return (None, false);
    }
    match event {
        PlatformWindowEvent::Resized { width, height } => (
            Some(WindowEvent::Resized { width, height }),
            false,
        ),
        PlatformWindowEvent::RedrawRequested => (Some(WindowEvent::RedrawRequested), false),
        PlatformWindowEvent::CloseRequested => (Some(WindowEvent::CloseRequested), true),
        PlatformWindowEvent::Other => (None, false),
    }
}

} // verus!
