[package]
name = "oadiscord"
version = "0.1.0"
edition = "2021"
publish = false

[dependencies]
serde_json = "=1.0.154"
serde = { version = "=1.0.229", features = ["derive"] }
openaction = "=2.8.0"
tokio = { version = "=1.54.1", features = ["rt-multi-thread", "macros", "sync", "time"] }
log = "=0.4.35"
simplelog = "=0.12.2"
windows = { version = "=0.58.0", features = ["Win32_UI_WindowsAndMessaging", "Win32_Foundation"] }
