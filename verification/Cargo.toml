[package]
name = "idscp_core"
version = "0.1.0"
edition = "2021"
publish = false

[dependencies]
log = "0.4"
openssl = "0.10"
protobuf = "2"
thiserror = "1"
