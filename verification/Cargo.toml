[package]
name = "query_meta"
version = "0.1.0"
edition = "2021"
publish = false

[dependencies]
either = "1"
hex = "0.4"
once_cell = "1"
proc-macro2 = "1"
quote = "1"
serde = { version = "1", features = ["derive"] }
serde_json = "1"
sha2 = "0.10"
syn = "2"
thiserror = "1"
toml = "0.8"
tracing = "0.1"
url = "2"
