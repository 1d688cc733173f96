[package]
name = "naominagata"
version = "0.1.0"
edition = "2021"
publish = false

[dependencies]
const_soft_float = "*"
maths-rs = "*"
oort_api = "*"
