[package]
name = "clickonce"
version = "0.1.0"
edition = "2021"
publish = false

[dependencies]
xml-rs = "*"
reqwest = { version = "*", default-features = false }
tokio = { version = "*", features = ["macros", "rt-multi-thread"] }
log = "*"
env_logger = "*"
anyhow = "*"
thiserror = "*"
