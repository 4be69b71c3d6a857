[package]
name = "oxidebot-example"
version = "0.1.0"
edition = "2021"
publish = false

[dependencies]
anyhow = "*"
dashmap = "*"
onebot_v11 = "*"
onebot_v11_oxidebot = "*"
oxidebot = "=0.1.8"
sqlx = { version = "0.8", features = ["sqlite", "runtime-tokio"] }
tokio = { version = "*", features = ["full"] }
tokio_schedule = "*"
tracing = "*"
tracing-subscriber = "*"
