[package]
name = "wasix_socket"
version = "0.1.0"
edition = "2021"
publish = false

[dependencies]
virtual-net = { version = "=0.5.0", default-features = false }
virtual-mio = "=0.2.0"
wasmer = { version = "=4.2.8", default-features = false, features = ["sys"] }
wasmer-types = "=4.2.8"
wasmer-wasix-types = "=0.18.3"
tokio = { version = "1", features = ["macros", "time", "rt"] }
tracing = "0.1"
serde = { version = "1", features = ["derive"] }
serde_derive = "1"
