[package]
name = "hydra"
version = "0.1.0"
edition = "2021"
publish = false

[dependencies]
rand = "0.8"
zip = { version = "0.6", default-features = false, features = ["deflate"] }
rs-docker = "*"
russh = "*"
russh-sftp = "*"
tokio = { version = "1", features = ["full"] }
color-eyre = "0.6"
async-trait = "0.1"
