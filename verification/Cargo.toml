[package]
name = "fusionsolar_rs"
version = "0.1.0"
edition = "2021"
publish = false

[dependencies]
config = { version = "0.11", default-features = false }
env_logger = "0.10"
http = "0.2"
lazy_static = "1"
log = "0.4"
num = "0.4"
num-derive = "0.4"
prometheus = { version = "0.13", default-features = false }
reqwest = { version = "0.11", default-features = false, features = ["cookies", "json"] }
rocket = "0.5"
serde = { version = "1", features = ["derive"] }
serde_json = "1"
