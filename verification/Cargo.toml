[package]
name = "attention_rs"
version = "0.1.0"
edition = "2021"
publish = false

[dependencies]
candle-core = "0.8.4"
half = "2"
sha2 = "0.10"
