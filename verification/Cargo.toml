[package]
name = "axum-inertia"
version = "0.1.0"
edition = "2021"
publish = false

[dependencies]
async-trait = "0.1"
axum = "0.6"
hex = "0.4"
http = "0.2"
maud = "0.25"
serde = { version = "1", features = ["derive"] }
serde_json = "1"
sha1 = "0.10"
