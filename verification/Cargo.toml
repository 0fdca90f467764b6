[package]
name = "git_delta_manifest"
version = "0.1.0"
edition = "2021"
publish = false

[dependencies]
bytes = "1"
gix-hash = { version = "=0.27.0", features = ["sha1"] }
crossbeam = "0.8"
prometheus = "*"
tracing = "0.1"
