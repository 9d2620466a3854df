[package]
name = "qr_stl"
version = "0.1.0"
edition = "2021"
publish = false

[dependencies]
qrcode-generator = "=4.1.9"
stl_io = "=0.11.0"
structopt = "=0.3.26"
