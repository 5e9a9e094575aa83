[package]
name = "miniblink"
version = "0.1.0"
edition = "2021"
publish = false

[dependencies]
miniblink-sys = "*"
serde = { version = "1", features = ["derive"] }
widestring = "1"

[dev-dependencies]
serde_derive = "1"
