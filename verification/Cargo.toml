[package]
name = "chaos_primes"
version = "0.1.0"
edition = "2021"
publish = false

[dependencies]
num-bigint = { version = "0.4", features = ["rand"] }
rand = "0.8"
rand_chacha = "0.3"
clap = { version = "4", features = ["derive"] }
