[package]
name = "bip300_messages"
version = "0.1.0"
edition = "2021"
publish = false

[dependencies]
bitcoin = { version = "0.30", default-features = false, features = ["std"] }
byteorder = "1"
sha2 = "0.10"
