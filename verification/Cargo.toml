[package]
name = "tes_backend"
version = "0.1.0"
edition = "2021"
publish = false

[dependencies]
tes = { version = "=0.11.0", features = ["client"] }
tokio = { version = "=1.53.2", features = ["time"] }
futures = "=0.3.34"
async-trait = "=0.1.92"
