[package]
name = "bandersnatch_vrfs"
version = "0.1.0"
edition = "2021"
publish = false

[dependencies]
ark-vrf = { version = "=0.2.2", features = ["bandersnatch", "ring"] }
ark-bls12-381 = "=0.4.0"
w3f-bls = "=0.1.9"
sha2 = "=0.10.9"
reed-solomon-simd = "=3.1.0"
ed25519-zebra = "=5.0.0"
