[package]
name = "ark_snarkjs"
version = "0.1.0"
edition = "2021"
publish = false

[dependencies]
ark-bn254 = "*"
ark-bls12-381 = "*"
ark-ec = "*"
ark-ff = "*"
ark-groth16 = "*"

[dev-dependencies]
num-bigint = "*"
serde_json = "*"
