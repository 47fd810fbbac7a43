[package]
name = "craft_cli"
version = "0.1.0"
edition = "2021"
publish = false

[dependencies]
console = "*"
indicatif = "*"
jiff = "*"
pyo3 = { version = "0.25", features = ["abi3-py310"] }
regex = "*"
xdg = "*"
