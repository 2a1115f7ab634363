[package]
name = "graven"
version = "0.1.0"
edition = "2021"
publish = false

[dependencies]
ravenlib = "=1.2.4"
azul = "=0.1.0"
reqwest = "=0.9.24"
