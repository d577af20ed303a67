[package]
name = "psoc6_hal"
version = "0.1.0"
edition = "2021"
publish = false

[dependencies]
cortex-m = "=0.7.9"
heapless = "=0.7.17"
