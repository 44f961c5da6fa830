[package]
name = "nidhogg"
version = "0.3.0"
edition = "2021"
publish = false

[dependencies]
num = "0.4"
rmp-serde = "1"
serde = { version = "1", features = ["derive"] }
thiserror = "1"
tracing = "0.1"
