[package]
name = "token_account_ops"
version = "0.1.0"
edition = "2021"
publish = false

[dependencies]
anchor-lang = "=0.29.0"
spl-token = { version = "=4.0.0", features = ["no-entrypoint"] }
