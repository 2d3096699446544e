[package]
name = "sulphur"
version = "0.1.0"
edition = "2021"
publish = false

[dependencies]
ringbuffer = "*"
serde = { version = "*", features = ["derive"] }
tokio = { version = "*", features = ["macros", "rt-multi-thread", "signal", "time", "net"] }
tokio-util = "*"
axum = "*"
clap = { version = "*", features = ["derive"] }
reqwest = { version = "*", default-features = false, features = ["blocking", "json"] }
sysinfo = "*"
