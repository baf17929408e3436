[package]
name = "aquadoggo_cli"
version = "0.8.0"
edition = "2021"
publish = false

[dependencies]
anyhow = "1"
clap = { version = "4", features = ["derive", "cargo"] }
colored = "2"
directories = "5"
figment = { version = "0.10", features = ["env", "toml"] }
libp2p = { version = "0.52", default-features = false }
p2panda-rs = "0.8"
rand = "0.8"
serde = { version = "1", features = ["derive"] }
tempfile = "3"
