[package]
name = "keyboard_layer_cursor"
version = "0.1.0"
edition = "2021"
publish = false

[dependencies]
anyhow = "=1.0.104"
async-hid = "=0.1.0"
auto-launch = "=0.6.0"
futures = "=0.3.34"
softbuffer = "=0.4.8"
tokio = { version = "=1.54.1", features = ["rt-multi-thread", "time", "signal", "sync", "macros"] }
windows = { version = "=0.48.0", features = ["Win32_Foundation", "Win32_System_Console", "Win32_UI_WindowsAndMessaging"] }
wineventhook = "=0.9.1"
winit = "=0.30.13"
