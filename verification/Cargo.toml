[package]
name = "subset_derive"
version = "0.1.0"
edition = "2021"
publish = false

[dependencies]
proc-macro2 = "=1.0.107"
syn = { version = "=2.0.119", features = ["full"] }
unicode-ident = "=1.0.27"

[dev-dependencies]
chrono = { version = "0.4", default-features = false }
