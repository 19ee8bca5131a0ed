[package]
name = "cartezcash"
version = "0.1.0"
edition = "2021"
publish = false

[dependencies]
hex = "=0.4.3"
ethereum-types = { version = "=0.16.0", default-features = false, features = ["std"] }
zebra-chain = "=15.0.0"
json = "=0.12.4"
anyhow = "=1.0.104"
tokio = { version = "=1.54.1", features = ["macros", "rt-multi-thread", "sync"] }
tower = { version = "=0.5.3", features = ["buffer", "util"] }
futures-util = "=0.3.34"
tracing = "=0.1.44"
tracing-subscriber = "=0.3.23"
zebra-state = "=16.0.0"
zcash_keys = "*"
zcash_primitives = "=0.31.0"
