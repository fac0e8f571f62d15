[package]
name = "foreign_function_finder"
version = "0.1.0"
edition = "2021"
publish = false

[dependencies]
clap = { version = "4", features = ["derive"] }
itertools = "0.14"
log = "0.4"
simplelog = "0.12"
