[package]
name = "zeek"
version = "0.1.0"
edition = "2021"
publish = false

[dependencies]
anyhow = "*"
blake2 = "*"
clap = { version = "*", features = ["derive"] }
colored = "*"
hex = "*"
reqwest = { version = "*", default-features = false, features = ["json"] }
serde = { version = "*", features = ["derive"] }
serde_json = "*"
tokio = { version = "*", features = ["macros", "rt-multi-thread"] }
