[package]
name = "solana_sky_trade"
version = "0.1.0"
edition = "2021"
publish = false

[dependencies]
chrono = "=0.4.45"
mpl-bubblegum = "=4.0.0"
solana-program = "=3.0.0"
