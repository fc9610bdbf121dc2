[package]
name = "call_checker"
version = "0.1.0"
edition = "2021"
publish = false

[dependencies]
source-map = "*"
map_vec = "*"
serde = { version = "1", features = ["derive"] }
serde_json = "1"
tokenizer-lib = "*"
temporary-annex = "*"
derive-partial-eq-extras = "*"
get-field-by-type = "*"
self-rust-tokenize = "*"
