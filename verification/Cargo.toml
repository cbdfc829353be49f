[package]
name = "tock_registers"
version = "0.1.0"
edition = "2021"
publish = false

[dependencies]
clap = "4"
prettyplease = "0.2"
proc-macro2 = "=1.0.107"
quote = "=1.0.47"
syn = { version = "=2.0.119", features = ["full", "extra-traits"] }
