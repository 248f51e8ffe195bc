[package]
name = "terralink"
version = "0.1.0"
edition = "2021"
publish = false

[dependencies]
anyhow = "=1.0.104"
async-trait = "=0.1.92"
flume = "=0.12.0"
log = "=0.4.34"
log4rs = { version = "=1.4.0", features = ["gzip"] }
serde = { version = "=1.0.229", features = ["derive"] }
tokio = { version = "=1.54.1", features = ["rt-multi-thread", "macros", "net", "io-util", "time", "fs", "sync"] }
toml = "=1.1.8"
