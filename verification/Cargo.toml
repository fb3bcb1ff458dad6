[package]
name = "matrix_room"
version = "0.1.0"
edition = "2021"
publish = false

[dependencies]
anyhow = "=1.0.104"
futures-util = "=0.3.34"
mime = "=0.3.17"
ruma = { version = "=0.16.0", features = ["events", "unstable-msc2448", "unstable-msc3245-v1-compat"] }
serde = { version = "=1.0.229", features = ["derive"] }
serde_json = "=1.0.154"
tracing = "=0.1.44"
