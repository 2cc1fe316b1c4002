//! Minimal native-host primitives for Fluxel.
//!
//! The crate owns the lifecycle decisions of native windows and of the
//! event-driven runtime: which ordered events a platform callback or window
//! message produces, when a native handle may be handed out, and when a
//! drawable interval opens and closes. Renderers only consume the standard
//! `raw-window-handle` handles; surfaces, swapchains, GPU synchronization,
//! input, clocks and application loops remain outside this boundary.

pub mod handles;
pub mod runtime;
pub mod window;

pub use runtime::host::{AppCallback, CallbackHistory, CallbackOutcome, HostApplication, HostContext, HostRuntime, HostRuntimeError, HostWindow, Runner, StopHistory};
pub use runtime::lifecycle::PlatformWindowEvent;
pub use window::adopted::AdoptedWindow;
pub use window::unsupported::UnsupportedWindow;
pub use window::win32::WindowState;
pub use window::{WindowConfig, WindowError, WindowEvent};
