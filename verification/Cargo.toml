[package]
name = "testdata_gen"
version = "0.1.0"
edition = "2021"
publish = false

[dependencies]
proc-macro2 = "1"
quote = "1"
syn = "1"
rand = "0.8"
uuid = { version = "1", features = ["v4"] }
