[package]
name = "ome_zarr_metadata"
version = "0.1.0"
edition = "2021"
publish = false

[dependencies]
pep440_rs = "*"
serde = { version = "*", features = ["derive"] }
serde_json = "*"
clap = { version = "*", features = ["derive"] }
json_comments = "*"
