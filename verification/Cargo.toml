[package]
name = "gipc"
version = "0.3.0"
edition = "2021"
publish = false

[dependencies]
async-trait = "0.1"
byteorder = "1"
ciborium = "0.2"
dirs = "5"
futures-io = "0.3"
interprocess = { version = "1", features = ["tokio_support"] }
serde = { version = "1", features = ["derive"] }
thiserror = "1"
tokio = { version = "1", features = ["sync", "rt", "rt-multi-thread", "io-util", "macros"] }
tokio-util = { version = "0.7", features = ["compat"] }
