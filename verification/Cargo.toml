[package]
name = "fluxel_host"
version = "0.1.0"
edition = "2021"
publish = false

[dependencies]
raw-window-handle = "0.6"
winit = { version = "0.30", default-features = false, features = ["rwh_06", "x11"] }
windows = { version = "0.61", features = ["Win32_Foundation", "Win32_System_LibraryLoader", "Win32_UI_WindowsAndMessaging", "Win32_Graphics_Gdi"] }
