[package]
name = "dict_core"
version = "0.1.0"
edition = "2021"
publish = false

[dependencies]
serde = { version = "=1.0.229", features = ["derive"] }
serde_json = "=1.0.154"
windows = { version = "0.58", features = ["Win32_UI_Input_KeyboardAndMouse"] }
