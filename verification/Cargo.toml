[package]
name = "vote_delegation"
version = "0.1.0"
edition = "2021"
publish = false

[dependencies]
anchor-lang = { version = "=0.29.0", features = ["init-if-needed"] }
anchor-spl = "=0.29.0"
borsh = "=0.10.4"
num-derive = "=0.4.2"
num-traits = "=0.2.19"
solana-program = "=1.18.26"
spl-governance = "=4.0.0"
static_assertions = "=1.1.0"
