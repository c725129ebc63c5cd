[package]
name = "for_the_queen_cli"
version = "0.1.0"
edition = "2021"
publish = false

[dependencies]
convert_case = "*"
crossterm = "*"
inquire = "*"
