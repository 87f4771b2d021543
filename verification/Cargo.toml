[package]
name = "weather_lookup"
version = "0.1.0"
edition = "2021"
publish = false

[dependencies]
geocoding = "=0.4.0"
reqwest = { version = "=0.11.27", features = ["blocking"] }
serde = { version = "=1.0.229", features = ["derive"] }
serde_json = "=1.0.154"
url = "=2.5.8"
