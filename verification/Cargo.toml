[package]
name = "flowutils"
version = "0.1.0"
edition = "2021"
publish = false

[dependencies]
uuid = { version = "*", features = ["v4"] }
syn = { version = "*", features = ["full"] }
quote = "*"
proc-macro2 = "*"
