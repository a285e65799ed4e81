[package]
name = "netcapture"
version = "0.1.0"
edition = "2021"
publish = false

[dependencies]
base64 = "0.22"
chromiumoxide = { version = "*", default-features = false, features = ["tokio-runtime"] }
futures = "0.3"
serde = { version = "1", features = ["derive"] }
thiserror = "1"
tokio = { version = "1", features = ["rt", "sync", "time", "macros"] }
