[package]
name = "empowerd"
version = "0.1.0"
edition = "2021"
publish = false

[dependencies]
rust-argon2 = "=3.0.0"
diesel = { version = "=2.3.14", default-features = false }
chrono = { version = "=0.4.45", features = ["serde"] }
serde = { version = "=1.0.229", features = ["derive"] }
serde_json = "1"
uom = "=0.38.0"
influxdb = "=0.8.0"
tokio = { version = "=1.54.1", features = ["full"] }
hyper = { version = "=1.12.0", features = ["server", "http1"] }
hyper-util = { version = "=0.1.21", features = ["tokio"] }
juniper = "=0.18.0"
juniper_hyper = "=0.11.0"
gpio-cdev = "=0.6.0"
clap = { version = "=4.6.7", features = ["derive"] }
slog = "=2.8.2"
