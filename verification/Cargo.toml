[package]
name = "vote_program"
version = "0.1.0"
edition = "2021"
publish = false

[dependencies]
anchor-lang = { version = "=1.2.1", features = ["init-if-needed"] }
borsh = { version = "=1.8.1", features = ["derive"] }
solana-program = "=4.1.0"
