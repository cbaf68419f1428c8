[package]
name = "alpack"
version = "0.1.0"
edition = "2021"
publish = false

[dependencies]
flate2 = "*"
indicatif = "*"
pico-args = "*"
regex = "*"
scraper = "*"
serde = { version = "*", features = ["derive"] }
tar = "*"
toml = "*"
ureq = "*"
walkdir_minimal = "*"
which = "*"
