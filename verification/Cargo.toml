[package]
name = "blair_png"
version = "0.1.0"
edition = "2021"
publish = false

[dependencies]
anyhow = "1"
config = "0.14"
indexmap = "2"
indicatif = "0.17"
oxipng = { version = "9", default-features = false, features = ["parallel", "zopfli"] }
rayon = "1"
serde = { version = "1", features = ["derive"] }
