[package]
name = "gateway"
version = "0.1.0"
edition = "2021"
publish = false

[dependencies]
log = "=0.4.34"
structopt = "=0.3.26"
