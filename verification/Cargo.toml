[package]
name = "mini_bot_rs"
version = "0.1.0"
edition = "2021"
publish = false

[dependencies]
serde = { version = "=1.0.229", features = ["derive"] }
serde_json = "=1.0.154"
uuid = { version = "=1.29.0", features = ["v4"] }
getrandom = "=0.4.3"
tokio = { version = "=1.54.1", features = ["rt-multi-thread", "macros", "fs", "process", "time", "sync", "net"] }
axum = "=0.8.9"
tower-http = { version = "=0.7.1", features = ["limit", "timeout"] }
reqwest = { version = "=0.13.5", default-features = false, features = ["json"] }
rusqlite = { version = "=0.41.1", features = ["bundled"] }
parking_lot = "=0.13.0"
async-trait = "=0.1.92"
tracing = "=0.1.44"
anyhow = "=1.0.104"
