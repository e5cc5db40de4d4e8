[package]
name = "ibc_reflect_send"
version = "0.1.0"
edition = "2021"
publish = false

[dependencies]
schemars = "0.8"
serde = { version = "1", default-features = false, features = ["derive", "std"] }
serde-json-wasm = "0.3"
snafu = "0.6"
syn = { version = "1", features = ["full"] }
