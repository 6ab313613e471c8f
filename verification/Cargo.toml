[package]
name = "fluvio-client-node"
version = "0.1.0"
edition = "2021"
publish = false

[dependencies]
base64 = "=0.22.1"
flate2 = "=1.1.10"
serde = { version = "=1.0.229", features = ["derive"] }
serde_json = "=1.0.154"
fluvio = { version = "=0.50.1", default-features = false, features = ["admin", "compress"] }
fluvio-smartmodule = "=0.50.1"
fluvio-future = { version = "=0.8.3", features = ["task"] }
node-bindgen = "=6.1.0"
anyhow = "=1.0.104"
tracing = "=0.1.44"
log = "=0.4.35"
futures = "=0.3.34"
