[package]
name = "jmap_proxy"
version = "0.1.0"
edition = "2021"
publish = false

[dependencies]
uuid = { version = "*", features = ["v4"] }
blake3 = "*"
serde = { version = "*", features = ["derive"] }
serde_json = "*"
dirs = "*"
tide = "*"
tide-http-auth = "*"
async-std = { version = "*", features = ["attributes"] }
async-trait = "*"
