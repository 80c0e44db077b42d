[package]
name = "cad_processor"
version = "0.1.0"
edition = "2021"
publish = false

[dependencies]
dxf = "*"
serde = { version = "*", features = ["derive"] }
serde_json = "*"
