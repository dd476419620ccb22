[package]
name = "anf"
version = "0.1.0"
edition = "2021"
publish = false

[dependencies]
anyhow = "=1.0.104"
bitflags = "=2.13.2"
env_logger = "=0.11.11"
fna3d = "=0.1.5"
fontstash = "*"
log = "=0.4.35"
sdl2 = "=0.38.0"
