[package]
name = "fripack"
version = "0.1.0"
edition = "2021"
publish = false

[dependencies]
anyhow = "1"
byteorder = "1"
clap = { version = "4", features = ["derive"] }
colored = "2"
dirs = "5"
env_logger = "0.11"
futures-util = "0.3"
indicatif = "0.17"
json5 = "0.4"
log = "0.4"
object = { version = "0.36", features = ["build"] }
reqwest = { version = "0.12", features = ["json", "stream"] }
serde = { version = "1", features = ["derive"] }
serde_json = "1"
tokio = { version = "1", features = ["full"] }
xz2 = "0.1"
