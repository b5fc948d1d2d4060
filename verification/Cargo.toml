[package]
name = "light_n2n"
version = "0.1.0"
edition = "2021"
publish = false

[dependencies]
serde_json = "1"
stunclient = "*"
reqwest = { version = "*", default-features = false, features = ["blocking"] }
