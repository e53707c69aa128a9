[package]
name = "sim_bench"
version = "0.1.0"
edition = "2021"
publish = false

[dependencies]
indicatif = "=0.17.11"
num-format = "=0.4.4"
rayon = "=1.10.0"
solana-sdk = "=1.18.26"
tokio = { version = "=1.43.4", features = ["macros", "rt-multi-thread", "time"] }
tokio-scoped = "=0.2.0"
