[package]
name = "tdl"
version = "0.1.0"
edition = "2021"
publish = false

[dependencies]
serde_json = "=1.0.151"
base64 = "=0.23.1"
metaflac = "=0.2.8"
reqwest = { version = "=0.13.5", default-features = false, features = ["query"] }
tokio = { version = "=1.53.2", features = ["rt-multi-thread", "macros", "process", "fs", "io-util"] }
rustyline = "=18.0.1"
anyhow = "=1.0.104"
