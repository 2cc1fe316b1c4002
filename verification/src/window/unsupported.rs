//! The explicit contract of a target that has no native window primitive.

use raw_window_handle::{DisplayHandle, HandleError, WindowHandle};
use vstd::prelude::*;

use super::{WindowConfig, WindowError, WindowEvent};

verus! {

/// Stands in for the native window on targets not yet implemented, so that
/// every operation reports the structured unsupported-platform result instead
/// of pretending that a native target exists.
pub struct UnsupportedWindow {
    _private: (),
}

impl UnsupportedWindow {
    /// No native window can be created on an unsupported target.
    pub fn new(config: WindowConfig) -> (result: Result<Self, WindowError>)
        ensures
            result == Err::<Self, WindowError>(WindowError::UnsupportedPlatform),
    {
        Err(WindowError::UnsupportedPlatform)
    }

    /// A value that stands for no native window at all; `new` never yields one.
    pub fn detached() -> (window: Self) {
        UnsupportedWindow { _private: () }
    }

    /// There are no native messages to dispatch on an unsupported target.
    pub fn poll_events(&self) -> (result: Result<Vec<WindowEvent>, WindowError>)
        ensures
            result == Err::<Vec<WindowEvent>, WindowError>(WindowError::UnsupportedPlatform),
    {
        Err(WindowError::UnsupportedPlatform)
    }

    /// No platform window exists, so it cannot have requested closure.
    pub fn close_requested(&self) -> (requested: bool)
        ensures
            !requested,
    {
        false
    }

    /// There is no native allocation to release on an unsupported target.
    pub fn close(&mut self) -> (result: Result<(), WindowError>)
        ensures
            result == Err::<(), WindowError>(WindowError::UnsupportedPlatform),
    {
        Err(WindowError::UnsupportedPlatform)
    }

    /// No native window handle exists on an unsupported target.
    pub fn window_handle(&self) -> (result: Result<WindowHandle<'_>, HandleError>)
        ensures
            result matches Err(error) && error == HandleError::NotSupported,
    {
        Err(HandleError::NotSupported)
    }

    /// No native display handle exists on an unsupported target.
    pub fn display_handle(&self) -> (result: Result<DisplayHandle<'_>, HandleError>)
        ensures
            result matches Err(error) && error == HandleError::NotSupported,
    {
        Err(HandleError::NotSupported)
    }
}

} // verus!
