[package]
name = "ggmusic"
version = "0.1.0"
edition = "2021"
publish = false

[dependencies]
image = "*"
lofty = "*"
rodio = "*"
catppuccin = "*"
rayon = "*"
