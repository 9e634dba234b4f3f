[package]
name = "voting_program"
version = "0.1.0"
edition = "2021"
publish = false

[dependencies]
groth16-solana = "*"
anchor-lang = "*"
