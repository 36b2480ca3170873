[package]
name = "meeting_prompt"
version = "0.1.0"
edition = "2021"
publish = false

[dependencies]
x11rb = "0.13"
serde = { version = "1", features = ["derive"] }
serde_json = "1"
tracing = "0.1"
windows = { version = "0.61", features = ["Win32_Foundation", "Win32_UI_WindowsAndMessaging"] }
core-foundation = "0.10"
core-graphics = "0.25"
