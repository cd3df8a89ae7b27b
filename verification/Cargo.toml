[package]
name = "gba_runtime"
version = "0.1.0"
edition = "2021"
publish = false

[dependencies]
voladdress = "*"

[dev-dependencies]
bitfrob = "*"
