[package]
name = "plugin_host"
version = "0.1.0"
edition = "2021"
publish = false

[dependencies]
ringbuf = "0.4"
vst = "0.3"
libloading = "0.8"
goblin = "0.8"
clap-sys = "*"
serde = { version = "1", features = ["derive"] }
