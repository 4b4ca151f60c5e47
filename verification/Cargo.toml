[package]
name = "randomness_consumer"
version = "0.1.0"
edition = "2021"
publish = false

[dependencies]
switchboard-on-demand = "=0.13.0"
anchor-lang = "=1.2.1"
bytemuck = "=1.25.2"
