[package]
name = "eff"
version = "0.1.0"
edition = "2021"
publish = false

[dependencies]
lzzzz = "*"
texpresso = "*"
bcndecode = "*"
bcdec_rs = "*"
anyhow = "*"
clap = { version = "*", features = ["derive"] }
image = { version = "*", default-features = false, features = ["png"] }
