[package]
name = "iot_gateway"
version = "0.1.0"
edition = "2021"
publish = false

[dependencies]
lambda_runtime = "*"
tokio = { version = "*", features = ["macros"] }
serde = { version = "*", features = ["derive"] }
serde_json = "*"
tracing = "*"
tracing-subscriber = "*"
aws-config = "*"
aws-sdk-dynamodb = "*"
