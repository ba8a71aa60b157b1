[package]
name = "multi_instance"
version = "0.1.0"
edition = "2021"
publish = false

[dependencies]
anyhow = "1"
chrono = "0.4"
dirs = "5"
libc = "0.2"
serde = { version = "1", features = ["derive"] }
serde_json = "1"
sysinfo = "0.33"
tracing = "0.1"
uuid = { version = "1", features = ["v4"] }
