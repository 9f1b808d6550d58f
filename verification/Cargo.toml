[package]
name = "mapbox_pool"
version = "0.1.0"
edition = "2021"
publish = false

[dependencies]
bytes = "=1.12.1"
crossbeam-channel = "=0.5.17"
futures = "=0.3.34"
image = { version = "=0.25.10", default-features = false, features = ["png"] }
mime = "=0.3.17"
mobc = "=0.9.0"
serde = { version = "=1.0.229", features = ["derive"] }
thiserror = "=1.0.69"
tokio = { version = "=1.54.1", features = ["rt", "sync"] }
