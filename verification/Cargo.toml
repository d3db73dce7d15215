[package]
name = "modbus_relay"
version = "0.1.0"
edition = "2021"
publish = false

[dependencies]
hex = "0.4"
serialport = { version = "4", default-features = false }
tokio = { version = "1", features = ["full"] }
socket2 = "0.5"
libc = "0.2"
futures = "0.3"
serde = { version = "1", features = ["derive"] }
serde_json = "1"
thiserror = "1"
clap = { version = "4", features = ["derive"] }
tracing = "0.1"
tracing-subscriber = { version = "0.3", features = ["env-filter", "time"] }
tracing-appender = "0.2"
time = { version = "0.3", features = ["local-offset", "formatting"] }
axum = "0.7"
rand = "0.8"
