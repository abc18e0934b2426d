[package]
name = "evm_core"
version = "0.1.0"
edition = "2021"
publish = false

[dependencies]
sha3 = "=0.12.0"
lazy_static = "=1.5.1"
parking_lot = "=0.13.0"
