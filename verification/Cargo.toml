[package]
name = "rv64_backend"
version = "0.1.0"
edition = "2021"
publish = false

[dependencies]
regalloc2 = "*"
smallvec = "1"
target-lexicon = "*"
