[package]
name = "frand_node"
version = "0.1.0"
edition = "2021"
publish = false

[dependencies]
ciborium = "=0.2.2"
serde = { version = "=1.0.229", features = ["derive"] }
tokio = { version = "=1.54.1", features = ["sync", "macros", "rt"] }
futures = "=0.3.34"
smallvec = "=1.16.4"
