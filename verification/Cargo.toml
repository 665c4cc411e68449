[package]
name = "lacon_rust_parser"
version = "0.1.0"
edition = "2021"

[dependencies]
bitflags = "2"
regex = "1"
