[package]
name = "tvm_disasm"
version = "0.1.0"
edition = "2021"
publish = false

[dependencies]
crc16 = "=0.4.0"
hex = "=0.4.3"
ton-client-rs = "*"
