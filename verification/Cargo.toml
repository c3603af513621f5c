[package]
name = "rust_notes"
version = "0.1.0"
edition = "2021"
publish = false

[dependencies]
handlebars = "*"
pulldown-cmark = "*"
serde_json = "*"
serde = { version = "*", features = ["derive"] }
docopt = "*"

[dev-dependencies]
tempfile = "*"
