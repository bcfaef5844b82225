[package]
name = "email_confirmation_service"
version = "0.1.0"
edition = "2021"
publish = false

[dependencies]
sha2 = "=0.11.1"
hex = "=0.4.3"
urlencoding = "=2.1.3"
uuid = { version = "=1.29.0", features = ["v4"] }
chrono = "=0.4.45"
serde = { version = "=1.0.229", features = ["derive"] }
serde_json = "=1.0.154"
serde_dynamo = { version = "=4.3.0", features = ["aws-sdk-dynamodb+1"] }
anyhow = "=1.0.104"
tokio = { version = "=1.54.1", features = ["macros", "rt-multi-thread"] }
axum = "=0.8.9"
lambda_http = "=1.3.2"
lambda_runtime = "=1.5.0"
aws_lambda_events = "=1.2.1"
aws-config = "=1.13.0"
aws-sdk-dynamodb = "=1.134.0"
aws-sdk-lambda = "=1.154.0"
aws-sdk-ses = "=1.121.0"
aws-smithy-types = "=1.9.0"
reqwest = { version = "=0.13.5", features = ["json"] }
