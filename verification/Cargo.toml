[package]
name = "cc-switch"
version = "0.1.0"
edition = "2021"
publish = false

[dependencies]
serde = { version = "1", features = ["derive"] }
serde_json = { version = "1", features = ["preserve_order"] }
chrono = { version = "0.4", default-features = false, features = ["clock", "std"] }
log = { version = "0.4", features = ["std"] }
axum = "0.7"
tokio = { version = "1", features = ["macros", "rt-multi-thread", "time", "sync", "net", "fs"] }
tokio-stream = { version = "0.1", features = ["sync"] }
futures = "0.3"
tower-http = { version = "0.5", features = ["cors", "fs"] }
rustls = { version = "0.23", default-features = false, features = ["ring", "std"] }
indexmap = "2"
