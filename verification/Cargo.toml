[package]
name = "tetris"
version = "0.1.0"
edition = "2021"
publish = false

[dependencies]
arrayvec = "=0.7.8"
nalgebra = { version = "=0.35.0", default-features = false, features = ["std"] }
rand = "=0.7.3"
ggez = "0.6"
specs = "0.16"
specs-derive = "0.4"
ncollide2d = "*"
mint = "0.5"
num-traits = "0.2"
log = "0.4"
pretty_env_logger = "0.4"
