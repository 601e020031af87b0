[package]
name = "wave_cid"
version = "0.1.0"
edition = "2021"
publish = false

[dependencies]
hex = "=0.4.3"
ruint = "=1.12.3"
sha2 = "=0.10.9"
stylus-sdk = "=0.6.1"
