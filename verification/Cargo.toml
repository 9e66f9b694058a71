[package]
name = "joy2qlc"
version = "0.1.0"
edition = "2021"
publish = false

[dependencies]
anyhow = "=1.0.104"
log = "=0.4.35"
env_logger = "=0.11.11"
once_cell = "=1.21.4"
serde = { version = "=1.0.229", features = ["derive"] }
serde_json = "=1.0.154"
toml = "=0.8.23"
notify = "=6.1.1"
rosc = "=0.10.1"
gilrs = "0.10"
enigo = "0.1"
reqwest = { version = "0.11", default-features = false, features = ["blocking", "json"] }
warp = { version = "0.3", default-features = false }
