[package]
name = "riot-wrappers"
version = "0.1.0"
edition = "2021"
publish = false

[dependencies]
embedded-hal = { version = "0.2", features = ["unproven"] }
rand = { version = "0.8", default-features = false }
rand_core = "0.6"
riot-sys = "*"
