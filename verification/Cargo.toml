[package]
name = "n32g4xx-hal"
version = "0.1.0"
edition = "2021"
publish = false

[dependencies]
cast = { version = "=0.3.0", default-features = false }
cortex-m = "=0.7.10"
embedded-hal = "=1.0.0"
fugit = "=0.3.9"
n32g4 = { version = "=0.1.0", features = ["n32g457"] }
nb = "=1.1.0"
