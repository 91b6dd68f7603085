[package]
name = "pokedex_gen"
version = "0.1.0"
edition = "2021"
publish = false

[dependencies]
image = { version = "*", default-features = false, features = ["png"] }
attohttpc = { version = "*", default-features = false }
serde = { version = "*", features = ["derive"] }
serde_json = "*"
ron = "*"
