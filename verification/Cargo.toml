[package]
name = "mwcas"
version = "0.1.0"
edition = "2021"
publish = false

[dependencies]
arrayvec = "*"
crossbeam-epoch = "*"
crossbeam-utils = "*"
once_cell = "*"

[dev-dependencies]
