[package]
name = "spin_clean"
version = "0.1.0"
edition = "2021"
publish = false

[dependencies]
anyhow = "1"
path-absolutize = "3"
serde = { version = "1", features = ["derive"] }
subprocess = "0.2"
tokio = { version = "1", features = ["fs", "macros", "rt-multi-thread"] }
toml = "0.5"
