[package]
name = "yasqlplus"
version = "0.1.0"
edition = "2021"
publish = false

[dependencies]
tabled = "*"
clap = { version = "*", features = ["derive"] }
rustyline = { version = "*", features = ["derive"] }
dirs = "*"
colored = "*"
console = "*"
terminal_size = "*"
