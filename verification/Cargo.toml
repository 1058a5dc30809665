[package]
name = "local"
version = "0.1.0"
edition = "2021"
publish = false

[dependencies]
anyhow = "*"
fdlimit = "*"
log = "*"
schemars = "*"
seek_bufread = "*"
serde = { version = "*", features = ["derive"] }
typetag = "*"
