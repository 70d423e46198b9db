[package]
name = "riscv_monitor"
version = "0.1.0"
edition = "2021"
publish = false

[dependencies]
devicetree = "=0.1.1"
lazy_static = "=1.4.0"
spin = "=0.5.2"
