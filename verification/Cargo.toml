[package]
name = "vex_libunwind"
version = "0.1.0"
edition = "2021"

[dependencies]
vex-libunwind-sys = "*"
