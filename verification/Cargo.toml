[package]
name = "ekk"
version = "0.1.0"
edition = "2021"
publish = false

[dependencies]
fixed = "1"
heapless = "0.8"
subtle = "2"
zeroize = { version = "1", features = ["derive"] }
log = "0.4"
