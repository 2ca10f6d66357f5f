[package]
name = "idcore"
version = "0.1.0"
edition = "2021"
publish = false

[dependencies]
rust-argon2 = "*"
rand = "*"
zxcvbn = "*"
