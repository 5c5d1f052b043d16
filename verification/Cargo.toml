[package]
name = "da_spammer"
version = "0.1.0"
edition = "2021"
publish = false

[dependencies]
avail-rust-client = { version = "=0.5.1", default-features = false, features = ["native"] }
sp-crypto-hashing = "*"
clap = { version = "=4.6.7", features = ["derive"] }
tokio = { version = "=1.53.2", features = ["macros", "rt-multi-thread"] }
