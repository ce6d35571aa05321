[package]
name = "dynarust"
version = "0.1.0"
edition = "2021"
publish = false

[dependencies]
aws-sdk-dynamodb = { version = "=1.134.0", default-features = false }
aws-smithy-runtime-api = { version = "=1.19.1", features = ["client", "http-1x"] }
aws-smithy-types = { version = "=1.9.0", features = ["http-body-1-x"] }
rand = "=0.8.8"
serde = "=1.0.229"
serde_json = "=1.0.154"
thiserror = "=1.0.69"
