[package]
name = "ledger_collation"
version = "0.1.0"
edition = "2021"
publish = false

[dependencies]
aligned-cmov = "*"
futures = "0.3"
grpcio = "*"
hex_fmt = "*"
lazy_static = "1"
rand = "0.8"
