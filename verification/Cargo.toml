[package]
name = "ldk_node_boundary"
version = "0.1.0"
edition = "2021"
publish = false

[dependencies]
ldk-node = "=0.2.2"
napi = { version = "=2.16.17", features = ["async"] }
napi-derive = "=2.16.13"
