[package]
name = "m3"
version = "0.1.0"
edition = "2021"
publish = false

[dependencies]
anchor-lang = { version = "0.29.0", features = ["init-if-needed"] }
arrayref = "0.3.7"
mpl-bubblegum = "1"
solana-program = "1.17"
spl-account-compression = { version = "0.3.0", features = ["cpi"] }
