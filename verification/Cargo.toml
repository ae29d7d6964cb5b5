[package]
name = "input_core"
version = "0.1.0"
edition = "2021"
publish = false

[dependencies]
lazy_static = "1"
pc-keyboard = "*"
pic8259 = "*"
spin = "*"
x86_64 = "*"
