[package]
name = "admint"
version = "0.1.0"
edition = "2021"
publish = false

[dependencies]
serde_json = "*"
clap = "2"
log = "*"
fern = { version = "*", features = ["colored"] }
