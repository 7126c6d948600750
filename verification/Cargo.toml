[package]
name = "bpf_extension"
version = "0.1.0"
edition = "2021"
publish = false

[dependencies]
aya-obj = "=0.2.1"
object = "0.36"
thiserror = "*"
