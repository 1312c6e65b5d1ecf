[package]
name = "vortex_layout"
version = "0.1.0"
edition = "2021"
publish = false

[dependencies]
hashbrown = "=0.17.1"
futures = "=0.3.34"
async-trait = "=0.1.92"
parking_lot = "=0.12.5"
