[package]
name = "rustracer"
version = "0.1.0"
edition = "2021"
publish = false

[dependencies]
anyhow = "1"
glm = "0.2.3"
image = { version = "0.24", default-features = false, features = ["png", "jpeg"] }
indicatif = "0.17"
num-traits = "0.2"
rayon = "1"
structopt = "0.3"
xmltree = "0.10"
