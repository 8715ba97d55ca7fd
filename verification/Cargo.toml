[package]
name = "par_runtime"
version = "0.1.0"
edition = "2021"
publish = false

[dependencies]
arcstr = { version = "=1.2.0", features = ["serde"] }
futures = "=0.3.34"
inventory = "=0.3.25"
serde = { version = "=1.0.229", features = ["derive"] }
tokio = { version = "=1.54.1", features = ["sync"] }
