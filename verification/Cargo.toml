[package]
name = "vga"
version = "0.1.0"
edition = "2021"
publish = false

[dependencies]
spinning_top = "*"
