[package]
name = "himawari"
version = "0.1.0"
edition = "2021"
publish = false

[dependencies]
argon2 = "*"
hmac = "*"
sha2 = "*"
validator = "*"
rand_core = { version = "*", features = ["getrandom"] }
