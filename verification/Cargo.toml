[package]
name = "auction_house"
version = "0.1.0"
edition = "2021"
publish = false

[dependencies]
borsh = "0.9.3"
solana-program = "1.18"
