[package]
name = "serial_key_manager"
version = "0.1.0"
edition = "2021"
publish = false

[dependencies]
base64 = "0.13"
rand = "0.8"
rsa = "0.6"
sha2 = "0.10"
