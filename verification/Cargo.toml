[package]
name = "peregrine"
version = "0.1.0"
edition = "2021"
publish = false

[dependencies]
aes-gcm = "=0.10.3"
atomic-write-file = "=0.3.1"
base64 = "=0.22.1"
bee2-rs = { version = "=0.2.3", features = ["bash-hash", "belt-ctr", "belt-dwp", "bign", "brng"] }
chrono = "=0.4.45"
platform-dirs = "=0.3.0"
postcard = { version = "=1.1.3", features = ["alloc"] }
rand = "=0.9.5"
serde = { version = "=1.0.229", features = ["derive"] }
