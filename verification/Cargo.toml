[package]
name = "dirzip"
version = "0.1.0"
edition = "2021"
publish = false

[dependencies]
glob = "0.3"
walkdir = "2"
zip = { version = "2", default-features = false, features = ["deflate"] }
napi = "2"
napi-derive = "2"
