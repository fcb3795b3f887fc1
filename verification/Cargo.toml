[package]
name = "rc_validation"
version = "0.1.0"
edition = "2021"
publish = false

[dependencies]
bytecheck = "0.6"
ptr_meta = "0.1"
