[package]
name = "nacos_config"
version = "0.1.0"
edition = "2021"
publish = false

[dependencies]
aws-config = "*"
aws-sdk-kms = "*"
base64 = "*"
rust-crypto = "0.2"
nacos-sdk = "*"
serde = "1"
serde_json = "1"
