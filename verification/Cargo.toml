[package]
name = "cvode_wrap"
version = "0.1.0"
edition = "2021"
publish = false

[dependencies]
array-init = "=2.1.0"
sundials-sys = { version = "=0.6.2", default-features = false, features = ["cvodes"] }
