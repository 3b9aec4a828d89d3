[package]
name = "raug_server"
version = "0.1.0"
edition = "2021"
publish = false

[dependencies]
rosc = "=0.11.4"
byteorder = "=1.5.0"
anyhow = "=1.0.104"
log = "=0.4.34"
env_logger = "=0.11.11"
clap = { version = "=4.6.7", features = ["derive"] }
tokio = { version = "=1.53.2", features = ["net", "rt", "rt-multi-thread", "macros"] }
