[package]
name = "rent_a_car"
version = "0.1.0"
edition = "2021"
publish = false

[dependencies]
soroban-sdk = "*"
