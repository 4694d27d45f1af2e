[package]
name = "swiggen"
version = "0.1.0"
edition = "2021"
publish = false

[dependencies]
cbindgen = "*"
proc-macro2 = "=1.0.107"
serde = { version = "=1.0.229", features = ["derive"] }
syn = { version = "=3.0.6", features = ["full"] }
toml = "=1.1.7"
