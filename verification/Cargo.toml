[package]
name = "qcontext"
version = "0.1.0"
edition = "2021"
publish = false

[dependencies]
qcell = "=0.5.5"
syn = { version = "=3.0.9", features = ["full"] }
quote = "=1.0.47"
proc-macro2 = "=1.0.107"
darling = "=0.24.1"
