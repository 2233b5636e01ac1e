[package]
name = "cput"
version = "0.1.0"
edition = "2021"
publish = false

[dependencies]
clap = "=2.34.0"
crossbeam = "=0.8.5"
crossterm = "=0.13.3"
serde = { version = "=1.0.229", features = ["derive"] }
serde_json = "=1.0.154"
tokio = { version = "=0.2.25", features = ["tcp", "time", "io-util", "rt-core", "dns"] }
