[package]
name = "armature_log"
version = "0.2.3"
edition = "2021"
publish = false

[dependencies]
chrono = "0.4"
colored = "*"
once_cell = "1"
serde_json = "1"
tracing = "0.1"
tracing-subscriber = { version = "0.3", features = ["env-filter"] }
