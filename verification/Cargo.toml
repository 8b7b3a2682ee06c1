[package]
name = "cvmodtool"
version = "0.1.0"
edition = "2021"
publish = false

[dependencies]
anstream = "*"
anstyle = "*"
anyhow = "*"
clap = { version = "*", features = ["derive"] }
fs2 = "*"
once_cell = "*"
serde = { version = "*", features = ["derive"] }
serde_json = "*"
tempfile = "*"
toml = "*"
ureq = "*"
walkdir = "*"
zip = { version = "*", default-features = false, features = ["deflate"] }
