[package]
name = "cpu6502"
version = "0.1.0"
edition = "2021"
publish = false

[dependencies]
ringbuffer = "*"
