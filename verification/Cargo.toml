[package]
name = "grants"
version = "0.1.0"
edition = "2021"
publish = false

[dependencies]
poem = { version = "=1.3.59", default-features = false }
proc-macro2 = "=1.0.107"
quote = "=1.0.47"
syn = { version = "=2.0.119", features = ["full"] }
