[package]
name = "crank_hog"
version = "0.1.0"
edition = "2021"
publish = false

[dependencies]
num-integer = "=0.1.47"
solana-program = "=1.16.25"
anchor-lang = "=0.28.0"
anchor-spl = { version = "=0.28.0", features = ["metadata"] }
mpl-token-metadata = "=1.13.2"
# Nothing here calls spl-token or spl-memo. They are held to their releases on
# solana-program 1.16: left free, the token crates under anchor-spl and
# mpl-token-metadata resolve to a second solana-program and do not build.
spl-token = "=4.0.0"
spl-memo = "=4.0.0"
