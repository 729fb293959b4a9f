[package]
name = "vrc_oscquery"
version = "0.1.0"
edition = "2021"
publish = false

[dependencies]
async-trait = "0.1"
log = "0.4"
mdns-sd = "0.13"
tokio = { version = "1", features = ["macros", "rt", "sync"] }
