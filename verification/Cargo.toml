[package]
name = "diesel_guard"
version = "0.1.0"
edition = "2021"
publish = false

[dependencies]
camino = "1"
clap = { version = "4", features = ["derive"] }
colored = "*"
human-panic = "2"
libc = "0.2"
lsp-server = "*"
lsp-types = "0.97"
miette = { version = "7", features = ["fancy"] }
pg_query = "6"
regex = "1"
serde = { version = "1", features = ["derive"] }
serde_json = "1"
thiserror = "2"
toml = "*"
walkdir = "2"

[dev-dependencies]
tempfile = "3"
