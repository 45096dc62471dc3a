[package]
name = "mpc_containers"
version = "0.1.0"
edition = "2021"
publish = false

[dependencies]
anyhow = "1"
bollard = { version = "0.13", default-features = false }
futures = { version = "0.3", default-features = false, features = ["std"] }
hex = "=0.4.3"
near-crypto = "=0.27.0"
near-workspaces = { version = "=0.15.0", default-features = false }
once_cell = "1"
testcontainers = { version = "0.15", default-features = false }
tokio = { version = "1", features = ["io-std", "io-util", "rt"] }
tracing = "0.1"
