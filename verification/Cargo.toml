[package]
name = "zkvm_session"
version = "0.1.0"
edition = "2021"
publish = false

[dependencies]
anyhow = "1"
bincode = "1.3"
log = "0.4"
serde = { version = "1", features = ["derive"] }
typetag = "0.2"
