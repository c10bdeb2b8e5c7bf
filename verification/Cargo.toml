[package]
name = "pbinfo_cli"
version = "0.1.0"
edition = "2021"
publish = false

[dependencies]
serde_json = "*"
serde = { version = "*", features = ["derive"] }
reqwest = { version = "*", default-features = false, features = ["multipart"] }
tokio = { version = "*", features = ["rt-multi-thread", "macros", "time"] }
clap = { version = "*", features = ["derive"] }
colored = "*"
directories = "*"
env_logger = "*"
log = "*"
thiserror = "*"
toml = "*"
