[package]
name = "sweeplab"
version = "0.1.0"
edition = "2021"
publish = false

[dependencies]
serde = { version = "=1.0.229", features = ["derive"] }
serde_json = "=1.0.151"
tokio = { version = "=1.53.2", features = ["macros", "rt-multi-thread"] }
visa-rs = "=0.7.1"
warp = { version = "=0.4.3", features = ["server"] }
