//! The lifecycle of a native drawable that the platform creates and destroys
//! and that the host only borrows: Android's `ANativeWindow` handed over by the
//! activity callbacks, or the `UIView` that a UIKit application supplies.
//!
//! The host never creates, retains or releases the native object; it records
//! the lifecycle facts the platform reports, in callback order, and hands the
//! native handle out only while the platform's interval is live.

use raw_window_handle::HandleError;
use vstd::prelude::*;

use super::{WindowConfig, WindowError, WindowEvent};

verus! {

/// The abstract state of an adopted drawable.
pub struct AdoptedWindowView<H> {
    /// The borrowed native object while its interval is live.
    pub native: Option<H>,
    /// Recorded lifecycle facts not yet handed out, oldest first.
    pub events: Seq<WindowEvent>,
    /// Whether the owner closed this host object.
    pub close_requested: bool,
}

/// The state right after adopting `native`: its creation is the first fact.
pub open spec fn adopted_view<H>(native: H) -> AdoptedWindowView<H> {
    AdoptedWindowView {
        native: Some(native),
        events: seq![WindowEvent::SurfaceCreated],
        close_requested: false,
    }
}

/// The state after one lifecycle fact is recorded.
pub open spec fn after_record<H>(v: AdoptedWindowView<H>, event: WindowEvent) -> AdoptedWindowView<H> {
    AdoptedWindowView { events: v.events.push(event), ..v }
}

/// The state after the platform revokes the drawable: the revocation is
/// recorded only for the first end of the interval.
pub open spec fn after_surface_destroyed<H>(v: AdoptedWindowView<H>) -> AdoptedWindowView<H> {
    if v.native is Some {
        AdoptedWindowView { native: None, events: v.events.push(WindowEvent::SurfaceDestroyed), ..v }
    } else {
        v
    }
}

/// The state after the owner closes the host object: the close is recorded
/// once, then the drawable interval ends.
pub open spec fn after_close<H>(v: AdoptedWindowView<H>) -> AdoptedWindowView<H> {
    let closed = if v.close_requested {
        v
    } else {
        AdoptedWindowView { close_requested: true, events: v.events.push(WindowEvent::CloseRequested), ..v }
    };
    after_surface_destroyed(closed)
}

/// A thread-affine borrow of a platform-owned native drawable `H`.
///
/// Construct one only from the platform callback that supplied the drawable;
/// it must stay valid until [`Self::surface_destroyed`] is called.
pub struct AdoptedWindow<H> {
    native: Option<H>,
    events: Vec<WindowEvent>,
    close_requested: bool,
}

impl<H> View for AdoptedWindow<H> {
    type V = AdoptedWindowView<H>;

    closed spec fn view(&self) -> AdoptedWindowView<H> {
        AdoptedWindowView {
            native: self.native,
            events: self.events@,
            close_requested: self.close_requested,
        }
    }
}

impl<H: Copy> AdoptedWindow<H> {
    /// The platform supplies its native drawable rather than allowing the host
    /// to create one; use [`Self::adopt`] in the platform callback.
    pub fn new(config: WindowConfig) -> (result: Result<Self, WindowError>)
        ensures
            result == Err::<Self, WindowError>(WindowError::UnsupportedPlatform),
    {
        Err(WindowError::UnsupportedPlatform)
    }

    /// Adopts the drawable the platform just supplied; its creation is the
    /// first recorded fact.
    pub fn adopt(native: H) -> (window: Self)
        ensures
            window@ == adopted_view(native),
    {
        let mut events: Vec<WindowEvent> = Vec::new();
        events.push(WindowEvent::SurfaceCreated);
        assert(events@ == seq![WindowEvent::SurfaceCreated]);
        AdoptedWindow { native: Some(native), events, close_requested: false }
    }

    /// Records the current drawable extent supplied by the platform.
    pub fn resized(&mut self, width: u32, height: u32)
        ensures
            final(self)@ == after_record(old(self)@, WindowEvent::Resized { width, height }),
    {
        self.events.push(WindowEvent::Resized { width, height });
    }

    /// Records a redraw request from the platform.
    pub fn redraw_requested(&mut self)
        ensures
            final(self)@ == after_record(old(self)@, WindowEvent::RedrawRequested),
    {
        self.events.push(WindowEvent::RedrawRequested);
    }

    /// Records that the platform suspended foreground rendering.
    pub fn suspended(&mut self)
        ensures
            final(self)@ == after_record(old(self)@, WindowEvent::Suspended),
    {
        self.events.push(WindowEvent::Suspended);
    }

    /// Records that the platform resumed foreground rendering.
    pub fn resumed(&mut self)
        ensures
            final(self)@ == after_record(old(self)@, WindowEvent::Resumed),
    {
        self.events.push(WindowEvent::Resumed);
    }

    /// Ends the borrowed interval before the platform destroys the drawable.
    pub fn surface_destroyed(&mut self)
        ensures
            final(self)@ == after_surface_destroyed(old(self)@),
    {
        if self.native.is_some() {
            self.native = None;
            self.events.push(WindowEvent::SurfaceDestroyed);
        }
    }

    /// Hands out the pending lifecycle facts in their callback order.
    pub fn poll_events(&mut self) -> (result: Result<Vec<WindowEvent>, WindowError>)
        ensures
            result matches Ok(events) && events@ == old(self)@.events,
            final(self)@ == (AdoptedWindowView { events: Seq::empty(), ..old(self)@ }),
    {
        let mut taken: Vec<WindowEvent> = Vec::new();
        std::mem::swap(&mut taken, &mut self.events);
        Ok(taken)
    }

    /// Whether the owner asked this host object to stop producing frames.
    pub fn close_requested(&self) -> (requested: bool)
        ensures
            requested == self@.close_requested,
    {
        self.close_requested
    }

    /// Marks this host object terminal without destroying platform-owned state.
    pub fn close(&mut self) -> (result: Result<(), WindowError>)
        ensures
            result == Ok::<(), WindowError>(()),
            final(self)@ == after_close(old(self)@),
    {
        if !self.close_requested {
            self.close_requested = true;
            self.events.push(WindowEvent::CloseRequested);
        }
        self.surface_destroyed();
        Ok(())
    }

    /// The borrowed drawable while its interval is live.
    pub fn window_handle(&self) -> (result: Result<H, HandleError>)
        ensures
            match self@.native {
                Some(native) => result == Ok::<H, HandleError>(native),
                None => result == Err::<H, HandleError>(HandleError::Unavailable),
            },
    {
        match self.native {
            Some(native) => Ok(native),
            None => Err(HandleError::Unavailable),
        }
    }
}

} // verus!
