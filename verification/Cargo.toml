[package]
name = "pullbox"
version = "0.1.0"
edition = "2021"
publish = false

[dependencies]
serde_json = "*"
anyhow = "*"
bytes = "*"
flate2 = "*"
libc = "*"
reqwest = { version = "*", default-features = false }
tar = "*"
tokio = { version = "*", features = ["rt-multi-thread", "macros"] }
