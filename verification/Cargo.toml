[package]
name = "book_import"
version = "0.1.0"
edition = "2021"
publish = false

[dependencies]
epub = "*"
image = "*"
uuid = { version = "*", features = ["v4"] }
serde = { version = "*", features = ["derive"] }
