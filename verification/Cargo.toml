[package]
name = "dmg01"
version = "0.1.0"
edition = "2021"
publish = false

[dependencies]
blip_buf = "*"
cpal = "*"
minifb = "*"
structopt = "*"
