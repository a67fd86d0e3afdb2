[package]
name = "omnia"
version = "0.1.0"
edition = "2021"
publish = false

[dependencies]
candid = { version = "=0.10.39", features = ["value"] }
ic-cdk = "=0.20.3"
ic-cdk-macros = "=0.20.3"
rand = "=0.8.8"
serde = { version = "=1.0.229", features = ["derive"] }
x509-parser = "=0.18.1"
