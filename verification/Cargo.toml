[package]
name = "honey"
version = "0.1.0"
edition = "2021"
publish = false

[dependencies]
jet-proto-math = "1.0.6"
anchor-lang = { version = "0.25.0", features = ["init-if-needed"] }
anchor-spl = "0.25.0"
solana-program = "1.10"
borsh = "0.9"
bytemuck = "1.7"
mpl-token-metadata = { version = "1", features = ["no-entrypoint"] }
rust_decimal = "1"
static_assertions = "1.1"
switchboard-v2 = "0.1"
vipers = "2"
