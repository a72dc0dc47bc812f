[package]
name = "minrs"
version = "0.1.0"
edition = "2021"
publish = false

[dependencies]
docopt = "0.7"
glium = "0.36"
rustc-serialize = "0.3"
