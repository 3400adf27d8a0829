[package]
name = "coop_egress"
version = "0.1.0"
edition = "2021"
publish = false

[dependencies]
anyhow = "1"
dirs = "*"
hex = "0.4"
libc = "0.2"
serde_json = "1"
serde_yaml_ng = "0.10"
sha2 = "0.10"
tempfile = "3"
tracing = "0.1"
url = "2"
