[package]
name = "upl_microservice"
version = "0.1.0"
edition = "2021"
publish = false

[dependencies]
chrono = { version = "=0.4.45", features = ["serde"] }
serde = { version = "=1.0.229", features = ["derive"] }
packman = "=0.1.2"
gzlib = "=0.2.84"
tonic = "=0.4.3"
tokio = { version = "1", features = ["full"] }
futures = "=0.3.34"
futures-util = "=0.3.34"
async-stream = "=0.3.6"
