[package]
name = "snarkos"
version = "2.0.0"
edition = "2021"
publish = false

[dependencies]
aleo-std = { version = "=0.1.24", features = ["cpu", "storage"] }
anyhow = "=1.0.104"
hyper = { version = "=0.14.32", features = ["server", "http1", "tcp"] }
json-rpc-types = "=1.3.4"
jsonrpc-core = "=18.0.0"
rand = "=0.8.8"
rayon = "=1.12.0"
serde = { version = "=1.0.229", features = ["derive"] }
serde_json = "=1.0.154"
snarkvm = { version = "=0.8.0", features = ["parameters"] }
tokio = { version = "=1.54.1", features = ["net", "sync", "rt-multi-thread", "time", "macros", "io-util"] }
tokio-stream = "=0.1.19"

[dev-dependencies]
bincode = "=1.3.3"
