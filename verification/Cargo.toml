[package]
name = "bindings_generator"
version = "0.1.0"
edition = "2021"
publish = false

[dependencies]
heck = "0.3"
miniserde = "0.1"
syn = { version = "1.0", features = ["full"] }
quote = "1.0"
proc-macro2 = "1.0"
