[package]
name = "passcode_forwarder"
version = "0.1.0"
edition = "2021"
publish = false

[dependencies]
kstool = "*"
sqlx = { version = "0.8", default-features = false, features = ["sqlite", "runtime-tokio"] }
tokio = { version = "1", features = ["sync", "rt", "macros"] }
serde = { version = "1", features = ["derive"] }
serde_json = "1"
anyhow = "1"
futures-util = "0.3"
log = "0.4"
