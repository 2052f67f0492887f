[package]
name = "boson_coordinator"
version = "0.1.0"
edition = "2021"
publish = false

[dependencies]
anyhow = "1"
async-trait = "0.1"
axum = "*"
boson-axum = "*"
boson-core = "*"
boson-runtime = "*"
chrono = "0.4"
serde = { version = "1", features = ["derive"] }
serde_json = "1"
