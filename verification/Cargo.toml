[package]
name = "anon_sym_ake"
version = "0.1.0"
edition = "2021"
publish = false

[dependencies]
ecies-ed25519 = { version = "*", default-features = false, features = ["pure_rust"] }
ecies = { version = "=0.2.11", default-features = false, features = ["pure"] }
k256 = { version = "=0.13.4", features = ["ecdsa"] }
sha2 = "*"
aes = "=0.8.4"
ctr = "=0.9.2"
rand = "=0.7.3"
rand_chacha = "=0.2.2"
rand_core = { version = "=0.6.4", features = ["getrandom"] }
clap = { version = "*", features = ["derive"] }
