[package]
name = "fe_os"
version = "0.1.0"
edition = "2021"
publish = false

[dependencies]
pc-keyboard = "*"
x86_64 = "*"
pic8259_simple = "*"
spin = "*"
lazy_static = "*"
bootloader = "0.9"
