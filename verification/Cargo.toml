[package]
name = "trace_prestate"
version = "0.1.0"
edition = "2021"
publish = false

[dependencies]
revm = { version = "=38.0.0", default-features = false, features = ["std", "serde"] }
op-revm = { version = "=20.0.0", default-features = false, features = ["std", "serde"] }
serde = { version = "=1.0.229", features = ["derive"] }
serde_json = "=1.0.154"
