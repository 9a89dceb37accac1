[package]
name = "ring_vrf"
version = "0.1.0"
edition = "2021"
publish = false

[dependencies]
ark-vrf = { version = "=0.1.1", features = ["bandersnatch", "ring"] }
blake2 = "=0.10.6"
hex = "=0.4.3"
w3f-ring-proof = "=0.0.2"
