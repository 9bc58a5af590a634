[package]
name = "poseidon_bench"
version = "0.1.0"
edition = "2021"
publish = false

[dependencies]
halo2_proofs = { version = "=0.3.5", features = ["dev-graph"] }
halo2curves = "=0.6.1"
plotters = { version = "=0.3.7", default-features = false, features = ["bitmap_backend", "bitmap_encoder"] }
rand_chacha = "=0.3.1"
