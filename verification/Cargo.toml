[package]
name = "tokio_metrics_cloudwatch"
version = "0.1.0"
edition = "2021"
publish = false

[dependencies]
aws-sdk-cloudwatch = { version = "*", default-features = false }
tokio = { version = "1", features = ["time"] }
tokio-metrics = "*"
