[package]
name = "hostcall"
version = "0.1.0"
edition = "2021"
publish = false

[dependencies]
dlmalloc = { version = "0.2", features = ["global"] }
proc-macro2 = "=1.0.107"
quote = "=1.0.47"
syn = { version = "=1.0.109", features = ["full", "extra-traits"] }
synstructure = "=0.12.6"
