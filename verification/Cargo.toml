[package]
name = "stoffel_rust_sdk"
version = "0.1.0"
edition = "2021"
publish = false

[dependencies]
base64 = "0.22"
uuid = { version = "1", features = ["v4"] }
chrono = { version = "0.4", default-features = false, features = ["clock", "std"] }
rand = "0.8"
serde = { version = "1", features = ["derive"] }
toml = "0.8"
bincode = "1"
thiserror = "1"
tokio = { version = "1", features = ["rt", "macros", "time", "sync"] }
tracing = "0.1"
futures = "0.3"
reqwest = { version = "0.12", default-features = false, features = ["json"] }
stoffellang = "=0.1.3"
