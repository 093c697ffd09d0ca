[package]
name = "rx_supervisor"
version = "0.1.0"
edition = "2021"
publish = false

[dependencies]
uuid = { version = "1", features = ["v4"] }
serde = { version = "1", features = ["derive"] }
serde_json = "1"
sha2 = "0.10"
rustix = { version = "1", features = ["process"] }
thiserror = "2"
tokio = { version = "1", features = ["rt", "macros", "signal", "time"] }
