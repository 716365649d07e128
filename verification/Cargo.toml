[package]
name = "rosin"
version = "0.1.0"
edition = "2021"
publish = false

[dependencies]
raw-window-handle = "=0.6.2"
windows = { version = "=0.62.2", features = ["Win32_Foundation", "Win32_UI_WindowsAndMessaging", "Win32_System_Threading", "Win32_System_LibraryLoader", "Win32_Graphics_Direct2D", "Win32_Graphics_Direct2D_Common", "Win32_Graphics_Dxgi_Common", "Win32_Graphics_Gdi"] }
