[package]
name = "solana_invoke"
version = "0.1.0"
edition = "2021"
publish = false

[dependencies]
bincode = "=1.3.3"
serde = "1"
solana_rbpf = "=0.8.5"
solana-bpf-loader-program = "=2.1.21"
solana-compute-budget = "=2.1.21"
solana-feature-set = "=2.1.21"
solana-log-collector = "=2.1.21"
solana-program-runtime = "=2.1.21"
solana-sdk = "=2.1.21"
solana-type-overrides = "=2.1.21"
