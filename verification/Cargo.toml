[package]
name = "window_styler"
version = "0.1.0"
edition = "2021"
publish = false

[dependencies]
raw-window-handle = "=0.5.2"
window-shadows = "=0.2.2"
window-vibrancy = "=0.3.2"
windows = { version = "0.39", features = ["Win32_Foundation", "Win32_Graphics_Dwm", "UI_ViewManagement"] }
winreg = "=0.10.1"
