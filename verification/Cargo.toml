[package]
name = "analytics"
version = "0.1.0"
edition = "2021"
publish = false

[dependencies]
log = "0.4"
reqwest = { version = "0.12", features = ["json"] }
serde = { version = "1", features = ["derive"] }
serde_derive = "1"
serde_json = "1"
sysinfo = "0.29"
tokio = { version = "1", features = ["rt", "sync", "time"] }
