[package]
name = "markup_syntax"
version = "0.1.0"
edition = "2021"

[dependencies]
ryu = "1.0"
