[package]
name = "node_svgcleaner"
version = "0.1.0"
edition = "2021"
publish = false

[dependencies]
svgcleaner = { version = "=0.9.5", default-features = false }
svgdom = "=0.10.5"
serde = { version = "=1.0.229", features = ["derive"] }
