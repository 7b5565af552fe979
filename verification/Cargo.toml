[package]
name = "outbound"
version = "0.1.0"
edition = "2021"
publish = false

[dependencies]
anyhow = "1"
byteorder = "1"
drain = "0.1"
http = "1"
http-types = { version = "2", default-features = false }
hyper = "1"
log = "0.4"
tokio = { version = "1", features = ["net", "io-util", "rt", "macros", "time"] }
tracing = "0.1"
