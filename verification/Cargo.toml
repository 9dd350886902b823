[package]
name = "hpm_riscv_rt"
version = "0.1.0"
edition = "2021"
publish = false

[dependencies]
andes-riscv = "*"
proc-macro2 = "1"
quote = "1"
syn = { version = "1", features = ["full", "extra-traits"] }
