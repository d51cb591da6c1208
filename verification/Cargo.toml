[package]
name = "pulve_calc"
version = "0.1.0"
edition = "2021"
publish = false

[dependencies]
printpdf = { version = "=0.7.0", default-features = false }
rusqlite = { version = "=0.32.1", features = ["bundled"] }
serde = { version = "1", features = ["derive"] }
serde_json = "1"
toml = "0.8"
dirs = "5"
open = "5"
