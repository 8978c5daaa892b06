[package]
name = "framehop"
version = "0.1.0"
edition = "2021"
publish = false

[dependencies]
gimli = "*"
macho-unwind-info = "*"
