[package]
name = "prodef"
version = "0.1.0"
edition = "2021"
publish = false

[dependencies]
approx = "*"
itertools = "*"
log = "*"
nalgebra = { version = "*", features = ["serde-serialize"] }
rand = "*"
rand_distr = "*"
rayon = "*"
serde = { version = "*", features = ["derive"] }
