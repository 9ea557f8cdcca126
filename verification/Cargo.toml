[package]
name = "framed_msgpack"
version = "0.1.0"
edition = "2021"
publish = false

[dependencies]
rmpv = "=1.3.1"
bytes = "=0.4.12"
futures = "=0.1.31"
tokio-io = "=0.1.13"
