[package]
name = "casm_run"
version = "0.1.0"
edition = "2021"
publish = false

[dependencies]
num-bigint = "=0.4.8"
num-traits = "=0.2.19"
cairo-vm = "=3.2.0"
