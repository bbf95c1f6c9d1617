[package]
name = "miden_clob"
version = "0.1.0"
edition = "2021"
publish = false

[dependencies]
miden-objects = "=0.8.1"
miden-crypto = "=0.14.1"
miden-assembly = "=0.13.2"
miden-lib = "=0.8.0"
miden-client = "=0.8.1"
rand = "=0.9.5"
tokio = { version = "=1.54.1", features = ["rt-multi-thread", "macros", "time", "fs"] }
