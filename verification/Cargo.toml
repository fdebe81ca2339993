[package]
name = "auralogs"
version = "1.0.0"
edition = "2021"
publish = false

[dependencies]
serde = { version = "1", features = ["derive"] }
serde_json = "1"
thiserror = "1"
chrono = "0.4"
uuid = { version = "1", features = ["v4"] }
once_cell = "1"
ureq = { version = "2", features = ["json"] }
log = { version = "0.4", features = ["std"] }
tracing-core = "0.1"
tracing-subscriber = "0.3"

[dev-dependencies]
tracing = "0.1"
