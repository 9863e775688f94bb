[package]
name = "postgis"
version = "0.1.0"
edition = "2021"
publish = false

[dependencies]
postgres-types = "*"
bytes = "*"
serde = { version = "*", features = ["derive"] }
geo-types = "*"
