[package]
name = "pallet-timeshares"
version = "0.1.0"
edition = "2021"
publish = false

[dependencies]
sp-io = "=49.0.0"
parity-scale-codec = "=3.7.5"
serde = { version = "1", features = ["derive"] }
