[package]
name = "ssh_gen_rs"
version = "0.1.0"
edition = "2021"
publish = false

[dependencies]
ed25519-dalek = { version = "2", features = ["rand_core"] }
rand = "0.8"
ssh-key = { version = "0.6", features = ["ed25519"] }
regex = "1"
humantime = "2"
num-format = "0.4"
clap = { version = "4", features = ["derive"] }
num_cpus = "1"
indicatif = "0.17"
reqwest = { version = "0.12", default-features = false, features = ["blocking"] }
