[package]
name = "hmac_driver"
version = "0.1.0"
edition = "2021"
publish = false

[dependencies]
pkcs11-bindings = "*"

[dev-dependencies]
hmac = "*"
sha2 = "*"
sha3 = "*"
hex = "*"
