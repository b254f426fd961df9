[package]
name = "white_list_permission"
version = "0.1.0"
edition = "2021"
publish = false

[dependencies]
grid-sdk = "=0.3.5"
protobuf = "=2.28.0"
sabre-sdk = "=0.5.2"
