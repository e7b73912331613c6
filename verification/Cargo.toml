[package]
name = "hyprproxlock"
version = "0.1.0"
edition = "2021"
publish = false

[dependencies]
anyhow = "1"
chrono = "0.4"
dirs = "5"
tokio = { version = "1", features = ["full"] }
tracing = "0.1"
tracing-appender-localtime = "*"
tracing-subscriber = { version = "0.3", features = ["env-filter", "local-time", "time"] }
