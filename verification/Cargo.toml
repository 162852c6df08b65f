[package]
name = "animus_lib"
version = "0.1.0"
edition = "2021"
publish = false

[dependencies]
async-std = "=1.13.2"
crossbeam-channel = "=0.5.17"
futures = "=0.3.34"
quinn = { version = "=0.10.2", features = ["futures-io", "runtime-async-std"] }
rcgen = "=0.11.3"
rustls = { version = "=0.21.12", features = ["dangerous_configuration", "quic"] }
speedy = "=0.8.7"
thiserror = "=1.0.69"
tokio = { version = "=1.54.1", features = ["sync"] }
tracing = "=0.1.44"
