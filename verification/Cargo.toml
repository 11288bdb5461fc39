[package]
name = "curve_core"
version = "0.1.0"
edition = "2021"
publish = false

[dependencies]
ark-ff = "=0.6.0"
ark-ec = "=0.6.0"
ark-std = "=0.6.0"
ark-test-curves = { version = "=0.6.0", features = ["bls12_381_curve"] }
