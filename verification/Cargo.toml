[package]
name = "mesh_dedup"
version = "0.1.0"
edition = "2021"
publish = false

[dependencies]
byteorder = "*"
futures = "*"
rbx_binary = "*"
rbx_dom_weak = "*"
rbx_types = "*"
reqwest = { version = "*", default-features = false }
tokio = { version = "*", features = ["rt-multi-thread", "macros", "sync", "fs", "io-util"] }
