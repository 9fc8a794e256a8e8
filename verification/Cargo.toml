[package]
name = "egelm"
version = "0.6.7"
edition = "2021"
publish = false

[dependencies]
crossbeam-channel = "=0.5.17"
tokio-util = "=0.7.20"
tokio = { version = "=1.54.1", features = ["rt-multi-thread", "macros", "sync", "time"] }
egui = "=0.37.0"
egui-winit = "=0.37.0"
egui_glow = "=0.37.0"
glutin = "=0.32.3"
glutin-winit = "=0.5.0"
ctrlc = "=3.5.2"
ron = "=0.12.3"
serde = { version = "=1.0.229", features = ["derive"] }
emojis = "=0.9.1"
ashpd = { version = "=0.13.13", features = ["file_chooser", "global_shortcuts", "open_uri"] }
async-trait = "=0.1.92"
futures-util = "=0.3.34"
dirs = "=7.0.0"
notify = "=8.2.1"
toml = "=1.1.8"
tracing = "=0.1.44"
thiserror = "=2.0.21"
syn = { version = "=2.0.119", features = ["full"] }
quote = "=1.0.47"
proc-macro2 = "=1.0.107"
