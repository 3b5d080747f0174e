[package]
name = "neighbourhood_stats"
version = "0.1.0"
edition = "2021"
publish = false

[dependencies]
geojson = "*"
quicli = "0.4"
serde = { version = "1", features = ["derive"] }
serde_json = "1"
