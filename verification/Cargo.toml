[package]
name = "rvfw"
version = "0.1.0"
edition = "2021"
publish = false

[dependencies]
fdt = "=0.1.5"
qemu-fw-cfg = "=0.2.0"
