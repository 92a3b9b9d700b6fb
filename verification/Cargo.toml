[package]
name = "pdm_auth"
version = "0.1.0"
edition = "2021"
publish = false

[dependencies]
anyhow = "=1.0.104"
http = "=1.5.0"
http-body-util = "=0.1.5"
lazy_static = "=1.5.1"
log = "=0.4.34"
openssl = "=0.10.81"
serde = { version = "=1.0.229", features = ["derive"] }
serde_json = "=1.0.154"
yew = "0.21"
