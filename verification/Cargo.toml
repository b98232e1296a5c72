[package]
name = "filecaster"
version = "0.1.0"
edition = "2021"
publish = false

[dependencies]
syn = { version = "=2.0.119", features = ["full"] }
proc-macro2 = "=1.0.107"
quote = "1"
serde = { version = "=1.0.229", features = ["derive"] }
serde_json = "=1.0.151"
merge = "=0.2.0"
