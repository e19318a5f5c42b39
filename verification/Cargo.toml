[package]
name = "update_core"
version = "0.1.0"
edition = "2021"
publish = false

[dependencies]
md-5 = "*"
minreq = "*"
fs_extra = "*"
serde = { version = "*", features = ["derive"] }
serde_json = "*"
