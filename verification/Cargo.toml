[package]
name = "open_cl"
version = "0.1.0"
edition = "2021"
publish = false

[dependencies]
cl-sys = "=0.4.3"
half = "=2.7.1"
thiserror = "=2.0.21"
anyhow = "=1.0.104"
