[package]
name = "flac_player"
version = "0.1.0"
edition = "2021"
publish = false

[dependencies]
crossterm = "*"
ctrlc = "*"
rodio = "*"
walkdir = "*"
