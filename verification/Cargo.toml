[package]
name = "node_client"
version = "0.1.0"
edition = "2021"
publish = false

[dependencies]
anyhow = "=1.0.104"
hyper = { version = "=0.14.32", features = ["client", "http1", "tcp"] }
jsonrpc-core-client = { version = "=18.0.0", features = ["http"] }
paw = "=1.0.0"
tokio = { version = "=1.54.1", features = ["rt-multi-thread", "macros"] }
