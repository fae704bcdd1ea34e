[package]
name = "rusido"
version = "0.1.0"
edition = "2021"
publish = false

[dependencies]
byteorder = "=1.5.0"
bytes = "=1.12.1"
futures = "=0.3.34"
futures-util = "=0.3.34"
service_utils_rs = { version = "=0.3.20", default-features = false, features = ["jwt"] }
thiserror = "=2.0.21"
tokio = { version = "=1.54.1", features = ["full"] }
tokio-tungstenite = "=0.30.0"
