[package]
name = "tee_compartment"
version = "0.1.0"
edition = "2021"
publish = false

[dependencies]
sha2 = "0.10"
aes-gcm = "0.10"
p256 = { version = "0.13", default-features = false, features = ["ecdsa", "std"] }
cmac = "0.7"
aes = "0.8"
rand = "0.8"
