[package]
name = "telurean_pallets"
version = "0.1.0"
edition = "2021"
publish = false

[dependencies]
frame-support = "=40.1.0"
frame-system = "=40.1.0"
pallet-timestamp = "=39.0.0"
pallet-uniques = "=40.1.0"
parity-scale-codec = { version = "3.7", features = ["derive"] }
scale-info = { version = "2.11", features = ["derive"] }
sp-runtime = "41"
sp-std = "14"
