[package]
name = "mouse-barrier"
version = "0.1.0"
edition = "2021"
publish = false

[dependencies]
figment = "0.10"
lazy_static = "1"
ron = "0.8"
serde = { version = "1", features = ["derive"] }
tracing = "0.1"
tracing-subscriber = "0.3"
winapi = { version = "0.3", features = ["winuser", "wingdi", "errhandlingapi", "libloaderapi", "minwindef", "windef"] }
