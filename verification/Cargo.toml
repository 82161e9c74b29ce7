[package]
name = "pbskids-dl"
version = "0.1.0"
edition = "2021"
publish = false

[dependencies]
clap = "4"
fltk = "1"
indicatif = "0.17"
isahc = "1"
serde = { version = "1", features = ["derive"] }
serde_json = "1"
