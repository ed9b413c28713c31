[package]
name = "buck2bes"
version = "0.1.0"
edition = "2021"
publish = false

[dependencies]
prost = "0.14"
tonic = "0.14"
tonic-prost = "0.14"
tokio-stream = "0.1"
