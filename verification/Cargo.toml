[package]
name = "ibis"
version = "0.1.0"
edition = "2021"
publish = false

[dependencies]
diffy = "*"
hex = "0.4"
sha2 = "0.10"
url = "2"
serde = { version = "1", features = ["derive"] }
serde_json = "1"
