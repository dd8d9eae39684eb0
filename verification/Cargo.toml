[package]
name = "lander"
version = "0.1.0"
edition = "2021"
publish = false

[dependencies]
nalgebra = { version = "=0.35.0", features = ["serde-serialize"] }
ndarray = "=0.17.2"
serde = { version = "=1.0.229", features = ["derive"] }
serde_json = "=1.0.154"
mcap = "=0.26.0"
optimization_engine = "=0.12.0"
