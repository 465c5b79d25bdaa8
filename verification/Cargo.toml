[package]
name = "rdap_redact"
version = "0.1.0"
edition = "2021"
publish = false

[dependencies]
serde_json = { version = "=1.0.154", features = ["preserve_order"] }
jsonpath-rust = "=0.3.5"
jsonpath_lib = "=0.3.0"
regex = "=1.13.1"
log = "=0.4.35"
env_logger = "=0.10.2"
