[package]
name = "oak_functions"
version = "0.1.0"
edition = "2021"
publish = false

[dependencies]
anyhow = "=1.0.104"
byteorder = "=1.5.0"
clap = { version = "=4.6.7", features = ["derive"] }
futures = "=0.3.34"
hashbrown = "=0.17.1"
humantime-serde = "=1.1.1"
log = "=0.4.34"
serde = { version = "=1.0.229", features = ["derive"] }
signal-hook = "=0.3.18"
spinning_top = "=0.3.0"
tokio = { version = "=1.54.1", features = ["sync", "rt-multi-thread", "time", "macros"] }
toml = "=1.1.8"
url = "=2.5.8"
wasmi = "=0.40.0"

[dev-dependencies]
wat = "=1.262.0"
