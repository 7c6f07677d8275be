[package]
name = "print_game"
version = "0.1.0"
edition = "2021"
publish = false

[dependencies]
csscolorparser = "=0.6.2"
clap = { version = "4", features = ["derive"] }
ctrlc = "3"
image = "0.24"
once_cell = "1"
