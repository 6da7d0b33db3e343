[package]
name = "icao_units"
version = "0.1.0"
edition = "2021"
publish = false

[dependencies]
rustc_apfloat = "*"
serde = { version = "1", features = ["derive"] }

[dev-dependencies]
serde_json = "1"
