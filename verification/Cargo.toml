[package]
name = "zx_exception"
version = "0.1.0"
edition = "2021"
publish = false

[dependencies]
lazy_static = "1.4"
numeric-enum-macro = "0.2"
spin = "0.7"
