[package]
name = "tlt"
version = "0.1.0"
edition = "2021"
publish = false

[dependencies]
clap = { version = "4", features = ["derive"] }
is-terminal = "0.4"
once_cell = "1"
yansi = "0.5"
