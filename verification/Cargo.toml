[package]
name = "bootrt"
version = "0.1.0"
edition = "2021"
publish = false

[dependencies]
sbi-rt = "=0.0.4"
