[package]
name = "cpu_monitor"
version = "0.1.0"
edition = "2021"
publish = false

[dependencies]
axum = { version = "0.6", features = ["ws"] }
clap = { version = "4", features = ["derive"] }
serde = { version = "1", features = ["derive"] }
serde_json = "1"
sysinfo = "0.29"
tokio = { version = "1", features = ["full"] }
tower-http = { version = "0.4", features = ["compression-full"] }
tracing-subscriber = "0.3"
