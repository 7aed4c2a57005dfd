[package]
name = "x_wing"
version = "0.1.0"
edition = "2021"
publish = false

[dependencies]
kem = "0.3.0-pre.0"
ml-kem = { version = "0.2.1", features = ["deterministic"] }
p384 = "0.13"
rand_core = { version = "0.6.4", features = ["getrandom"] }
sha3 = "0.10.8"
zeroize = { version = "1.8", features = ["derive"] }
