[package]
name = "auto_scuttle"
version = "0.1.0"
edition = "2021"
publish = false

[dependencies]
log = "0.4"
rdev = "0.5"
tokio = { version = "1", default-features = false, features = ["time", "sync"] }
