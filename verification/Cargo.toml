[package]
name = "zksnark_reporting_system"
version = "0.1.0"
edition = "2021"
publish = false

[dependencies]
ark-ff = "0.5"
ark-std = "0.5"
ark-relations = "0.5"
ark-r1cs-std = "0.5"
ark-crypto-primitives = { version = "0.5", features = ["sponge", "r1cs"] }
ark-bn254 = "0.5"
