[package]
name = "adios"
version = "0.1.0"
edition = "2021"
publish = false

[dependencies]
rand = "=0.8.5"
rodio = "0.17"
rfd = "0.14"
wav = "1.0"
sonogram = "0.7"
lalrpop-util = { version = "0.20", features = ["lexer"] }
