//! Event-driven native bootstrap for presentation smoke tests and examples.
//!
//! The runtime owns the platform event loop but exposes no `winit` type in
//! its public contract and never depends on a renderer.

pub mod lifecycle;
pub mod host;
pub mod laws;
