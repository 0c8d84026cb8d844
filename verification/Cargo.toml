[package]
name = "curse_catalog"
version = "0.1.0"
edition = "2021"
publish = false

[dependencies]
isahc = { version = "1", features = ["json"] }
once_cell = "1"
serde = { version = "1", features = ["derive"] }
serde_json = "1"
