[package]
name = "spicedb_rust"
version = "0.1.0"
edition = "2021"
publish = false

[dependencies]
anyhow = "1"
futures = "0.3"
prost = "0.13"
prost-types = "0.13"
strum = { version = "0.26", features = ["derive"] }
tokio-stream = "0.1"
tonic = "0.12"
uuid = { version = "1", features = ["v4", "v7"] }
