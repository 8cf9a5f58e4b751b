[package]
name = "sgx_vm"
version = "0.1.0"
edition = "2021"
publish = false

[dependencies]
parking_lot = "*"
sgx_types = "*"
sgx_urts = "*"
lazy_static = "1.4"
log = "0.4"
