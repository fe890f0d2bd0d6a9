[package]
name = "huntsman"
version = "0.1.0"
edition = "2021"
publish = false

[dependencies]
aho-corasick = "1"
serde = { version = "1", features = ["derive"] }
serde_json = "1"
sha2 = "0.10"
memmap2 = "0.9"
walkdir = "2"
