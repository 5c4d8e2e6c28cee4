[package]
name = "rdma_verbs"
version = "0.1.0"
edition = "2021"
publish = false

[dependencies]
anyhow = "=1.0.104"
quanta = "=0.13.0"
rdma-sys = "=0.3.0"
serde = { version = "=1.0.229", features = ["derive"] }
thiserror = "=1.0.69"
