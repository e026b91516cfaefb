[package]
name = "bepinex_gui"
version = "0.1.0"
edition = "2021"
publish = false

[dependencies]
clipboard = "0.5"
crossbeam-channel = "0.5"
directories-next = "2"
eframe = { version = "0.23", default-features = false, features = ["default_fonts", "glow", "wayland"] }
font-awesome = "0.2"
serde = { version = "1", features = ["derive"] }
sysinfo = { version = "0.29", default-features = false }
tracing = "0.1"
