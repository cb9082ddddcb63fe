[package]
name = "fixture_gen"
version = "0.1.0"
edition = "2021"
publish = false

[dependencies]
fake = "2"
pgrx = "0.11"
rand = "0.8"
rand_chacha = "0.3"
