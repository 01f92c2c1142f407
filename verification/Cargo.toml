[package]
name = "package_updater"
version = "0.1.0"
edition = "2021"
publish = false

[dependencies]
serde = { version = "=1.0.229", features = ["derive"] }
tokio = { version = "=1.54.1", features = ["process", "time", "macros", "rt"] }
notify = "=8.2.1"
futures = "=0.3.34"
async-stream = "=0.3.6"
