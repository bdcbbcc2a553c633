[package]
name = "pathte"
version = "0.1.0"
edition = "2021"
publish = false

[dependencies]
clipboard-win = "5"
lazy_static = "1"
windows = { version = "0.48", features = ["Win32_Foundation", "Win32_UI_Input_KeyboardAndMouse", "Win32_UI_WindowsAndMessaging"] }

[dev-dependencies]
regex = "1"
