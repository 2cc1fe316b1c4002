//! The decision core of the Win32 window: how each window message changes the
//! window's lifecycle state and which host-level event it records.
//!
//! Win32 hands every message to a window procedure. The procedure only
//! transitions close state and records ordered events; waiting for the GPU,
//! surface teardown and HWND destruction stay outside it, so a renderer can
//! first stop its frame loop and retire its accepted work.

use raw_window_handle::HandleError;
use vstd::prelude::*;

use super::WindowEvent;

verus! {

/// `WM_DESTROY`: the window is being destroyed.
pub const WM_DESTROY: u32 = 0x0002;

/// `WM_SIZE`: the client area changed size or the window was minimized/restored.
pub const WM_SIZE: u32 = 0x0005;

/// `WM_CLOSE`: the user or system asked the window to close.
pub const WM_CLOSE: u32 = 0x0010;

/// `WM_NCDESTROY`: the last message a window receives before its HWND is gone.
pub const WM_NCDESTROY: u32 = 0x0082;

/// `SIZE_RESTORED`: the `WM_SIZE` kind for ordinary resizes and restores.
pub const SIZE_RESTORED: u32 = 0;

/// `SIZE_MINIMIZED`: the `WM_SIZE` kind for minimization.
pub const SIZE_MINIMIZED: u32 = 1;

/// What the window procedure answers for a message.
#[derive(Clone, Copy, Debug, PartialEq, Eq, Structural)]
pub enum MessageDisposition {
    /// The message was consumed; the procedure returns `0`.
    Handled,
    /// The message goes to `DefWindowProcW`.
    Default,
}

/// The answer the window procedure gives for `message`.
pub open spec fn spec_disposition(message: u32) -> MessageDisposition {
    if message == WM_CLOSE || message == WM_DESTROY || message == WM_SIZE || message
        == WM_NCDESTROY {
        MessageDisposition::Handled
    } else {
        MessageDisposition::Default
    }
}

/// Classifies a message for the window procedure, whether or not the window's
/// state is attached to the HWND yet.
pub fn message_disposition(message: u32) -> (disposition: MessageDisposition)
    ensures
        disposition == spec_disposition(message),
        disposition == MessageDisposition::Handled <==> (message == WM_CLOSE || message == WM_DESTROY
            || message == WM_SIZE || message == WM_NCDESTROY),
{
    if message == WM_CLOSE || message == WM_DESTROY || message == WM_SIZE || message
        == WM_NCDESTROY {
        MessageDisposition::Handled
    } else {
        MessageDisposition::Default
    }
}

/// The low 16 bits of a packed `LPARAM`: the client width of a `WM_SIZE`.
pub open spec fn low_word(lparam: isize) -> u32 {
    ((lparam as usize) % 0x10000) as u32
}

/// Bits 16 to 31 of a packed `LPARAM`: the client height of a `WM_SIZE`.
pub open spec fn high_word(lparam: isize) -> u32 {
    (((lparam as usize) / 0x10000) % 0x10000) as u32
}

/// The new minimized flag and the event recorded for one `WM_SIZE`.
///
/// Win32 uses `SIZE_RESTORED` for ordinary drag-resizes too, so only a
/// preceding `SIZE_MINIMIZED` makes it a semantic restore.
pub open spec fn size_transition(minimized: bool, wparam: usize, lparam: isize) -> (bool, WindowEvent) {
    let kind = wparam as u32;
    let width = low_word(lparam);
    let height = high_word(lparam);
    if kind == SIZE_MINIMIZED {
        (true, WindowEvent::Minimized)
    } else if kind == SIZE_RESTORED && minimized {
        (false, WindowEvent::Restored { width, height })
    } else {
        (false, WindowEvent::Resized { width, height })
    }
}

/// The abstract state of a Win32 window.
pub struct WindowStateView {
    /// The live HWND, as an integer, until native destruction.
    pub hwnd: Option<isize>,
    /// The module instance that owns the window class.
    pub hinstance: isize,
    /// Whether a close was requested, by the platform or by the owner.
    pub close_requested: bool,
    /// Whether the last size transition was a minimization.
    pub minimized: bool,
    /// Recorded events not yet handed out, oldest first.
    pub events: Seq<WindowEvent>,
}

/// The state after the first terminal close transition is recorded; once a
/// close was requested nothing more is recorded.
pub open spec fn after_close_event(v: WindowStateView) -> WindowStateView {
    if v.close_requested {
        v
    } else {
        WindowStateView { close_requested: true, events: v.events.push(WindowEvent::CloseRequested), ..v }
    }
}

/// The state after the owner requests closing: no event is recorded and the
/// HWND stays.
pub open spec fn after_request_close(v: WindowStateView) -> WindowStateView {
    WindowStateView { close_requested: true, ..v }
}

/// The state after one `WM_SIZE`.
pub open spec fn after_size(v: WindowStateView, wparam: usize, lparam: isize) -> WindowStateView {
    let (minimized, event) = size_transition(v.minimized, wparam, lparam);
    WindowStateView { minimized, events: v.events.push(event), ..v }
}

/// The state after native destruction (`WM_NCDESTROY`): the terminal event is
/// recorded once and the HWND is forgotten.
pub open spec fn after_native_destroyed(v: WindowStateView) -> WindowStateView {
    WindowStateView { hwnd: None, ..after_close_event(v) }
}

/// The state after the window procedure handles one message.
pub open spec fn after_message(v: WindowStateView, message: u32, wparam: usize, lparam: isize) -> WindowStateView {
    if message == WM_CLOSE || message == WM_DESTROY {
        after_close_event(v)
    } else if message == WM_SIZE {
        after_size(v, wparam, lparam)
    } else if message == WM_NCDESTROY {
        after_native_destroyed(v)
    } else {
        v
    }
}

/// The integer parts of a `raw_window_handle::Win32WindowHandle`.
#[derive(Clone, Copy, Debug, PartialEq, Eq, Structural)]
pub struct Win32HandleParts {
    /// The window's HWND; never zero.
    pub hwnd: isize,
    /// The module instance, when it is not null.
    pub hinstance: Option<isize>,
}

/// The window handle of a state: available while a non-null HWND is live.
pub open spec fn spec_handle_parts(v: WindowStateView) -> Result<Win32HandleParts, HandleError> {
    match v.hwnd {
        Some(hwnd) => if hwnd != 0 {
            Ok(
                Win32HandleParts {
                    hwnd,
                    hinstance: if v.hinstance != 0 {
                        Some(v.hinstance)
                    } else {
                        None
                    },
                },
            )
        } else {
            Err(HandleError::Unavailable)
        },
        None => Err(HandleError::Unavailable),
    }
}

/// The lifecycle state that a Win32 window procedure mutates.
pub struct WindowState {
    hwnd: Option<isize>,
    hinstance: isize,
    close_requested: bool,
    minimized: bool,
    events: Vec<WindowEvent>,
}

impl View for WindowState {
    type V = WindowStateView;

    closed spec fn view(&self) -> WindowStateView {
        WindowStateView {
            hwnd: self.hwnd,
            hinstance: self.hinstance,
            close_requested: self.close_requested,
            minimized: self.minimized,
            events: self.events@,
        }
    }
}

impl WindowState {
    /// A state for a window that is not closed, not minimized and has recorded
    /// nothing yet.
    pub fn new(hwnd: Option<isize>, hinstance: isize) -> (state: Self)
        ensures
            state@ == (WindowStateView {
                hwnd,
                hinstance,
                close_requested: false,
                minimized: false,
                events: Seq::empty(),
            }),
    {
        WindowState { hwnd, hinstance, close_requested: false, minimized: false, events: Vec::new() }
    }

    /// Records the HWND that creation returned.
    pub fn set_hwnd(&mut self, hwnd: isize)
        ensures
            final(self)@ == (WindowStateView { hwnd: Some(hwnd), ..old(self)@ }),
    {
        self.hwnd = Some(hwnd);
    }

    /// The live HWND, if native destruction has not happened.
    pub fn hwnd(&self) -> (hwnd: Option<isize>)
        ensures
            hwnd == self@.hwnd,
    {
        self.hwnd
    }

    /// The module instance that owns the window class.
    pub fn hinstance(&self) -> (hinstance: isize)
        ensures
            hinstance == self@.hinstance,
    {
        self.hinstance
    }

    /// The parts of the window handle, while a non-null HWND is live.
    pub fn handle_parts(&self) -> (parts: Result<Win32HandleParts, HandleError>)
        ensures
            parts == spec_handle_parts(self@),
    {
        match self.hwnd {
            Some(hwnd) => if hwnd != 0 {
                let hinstance = if self.hinstance != 0 {
                    Some(self.hinstance)
                } else {
                    None
                };
                Ok(Win32HandleParts { hwnd, hinstance })
            } else {
                Err(HandleError::Unavailable)
            },
            None => Err(HandleError::Unavailable),
        }
    }

    /// Whether a close was requested, by the platform or by the owner.
    pub fn close_requested(&self) -> (requested: bool)
        ensures
            requested == self@.close_requested,
    {
        self.close_requested
    }

    /// Marks the window closing at its owner's request, recording nothing and
    /// keeping the HWND.
    pub fn request_close(&mut self)
        ensures
            final(self)@ == after_request_close(old(self)@),
    {
        self.close_requested = true;
    }

    /// Starts closing at the owner's request and returns the HWND that must
    /// still be destroyed: the live one, or none once native destruction has
    /// happened, so that a window is destroyed at most once.
    pub fn begin_close(&mut self) -> (to_destroy: Option<isize>)
        ensures
            final(self)@ == after_request_close(old(self)@),
            to_destroy == old(self)@.hwnd,
    {
        self.request_close();
        self.hwnd
    }

    /// Records the first terminal close transition exactly once. `WM_CLOSE`,
    /// externally initiated `WM_DESTROY`, and the final `WM_NCDESTROY` may all
    /// occur for one HWND; callers need one ordered terminal event, not three.
    pub fn request_close_event(&mut self)
        ensures
            final(self)@ == after_close_event(old(self)@),
    {
        if !self.close_requested {
            self.close_requested = true;
            self.events.push(WindowEvent::CloseRequested);
        }
    }

    /// Records one event after all earlier ones.
    pub fn push_event(&mut self, event: WindowEvent)
        ensures
            final(self)@ == (WindowStateView { events: old(self)@.events.push(event), ..old(self)@ }),
    {
        self.events.push(event);
    }

    /// Hands out the recorded events in recording order and forgets them.
    pub fn take_events(&mut self) -> (events: Vec<WindowEvent>)
        ensures
            events@ == old(self)@.events,
            final(self)@ == (WindowStateView { events: Seq::empty(), ..old(self)@ }),
    {
        let mut taken: Vec<WindowEvent> = Vec::new();
        std::mem::swap(&mut taken, &mut self.events);
        taken
    }

    /// Converts one `WM_SIZE` into the host-level transition and updates the
    /// minimized flag; the event is returned, not recorded.
    pub fn size_event(&mut self, wparam: usize, lparam: isize) -> (event: WindowEvent)
        ensures
            (final(self)@.minimized, event) == size_transition(old(self)@.minimized, wparam, lparam),
            final(self)@ == (WindowStateView { minimized: final(self)@.minimized, ..old(self)@ }),
    {
        let packed = lparam as usize;
        let width_bits = packed & 0xffff;
        let height_bits = (packed >> 16u32) & 0xffff;
        assert(width_bits == packed % 0x10000) by (bit_vector)
            requires
                width_bits == packed & 0xffff,
        ;
        assert(height_bits == (packed / 0x10000) % 0x10000) by (bit_vector)
            requires
                height_bits == (packed >> 16u32) & 0xffff,
        ;
        let width = width_bits as u32;
        let height = height_bits as u32;
        let kind = wparam as u32;
        if kind == SIZE_MINIMIZED {
            self.minimized = true;
            WindowEvent::Minimized
        } else if kind == SIZE_RESTORED && self.minimized {
            self.minimized = false;
            WindowEvent::Restored { width, height }
        } else {
            self.minimized = false;
            WindowEvent::Resized { width, height }
        }
    }

    /// Records terminal native destruction: the close event once, and the HWND
    /// is forgotten.
    pub fn native_destroyed(&mut self)
        ensures
            final(self)@ == after_native_destroyed(old(self)@),
    {
        self.request_close_event();
        self.hwnd = None;
    }

    /// The window procedure's work for one message whose window has this state
    /// attached.
    pub fn handle_message(&mut self, message: u32, wparam: usize, lparam: isize) -> (disposition:
        MessageDisposition)
        ensures
            final(self)@ == after_message(old(self)@, message, wparam, lparam),
            disposition == spec_disposition(message),
            disposition == MessageDisposition::Handled <==> (message == WM_CLOSE || message == WM_DESTROY
                || message == WM_SIZE || message == WM_NCDESTROY),
            disposition == MessageDisposition::Default ==> final(self)@ == old(self)@,
    {
        if message == WM_CLOSE || message == WM_DESTROY {
            self.request_close_event();
            MessageDisposition::Handled
        } else if message == WM_SIZE {
            let event = self.size_event(wparam, lparam);
            self.push_event(event);
            MessageDisposition::Handled
        } else if message == WM_NCDESTROY {
            self.native_destroyed();
            MessageDisposition::Handled
        } else {
            MessageDisposition::Default
        }
    }
}

} // verus!
