[package]
name = "prefix"
version = "0.1.0"
edition = "2021"
publish = false

[dependencies]
glob = "*"
serde = { version = "*", features = ["derive"] }
serde_yaml = "*"
linked-hash-map = { version = "*", features = ["serde_impl"] }
structopt = "*"
tokio = { version = "*", features = ["process", "macros", "rt-multi-thread"] }
futures = "*"
colored = "*"
path-slash = "*"
