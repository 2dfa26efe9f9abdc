[package]
name = "web_service"
version = "0.1.0"
edition = "2021"
publish = false

[dependencies]
aws-config = { version = "1", default-features = false, features = ["behavior-version-latest"] }
aws-sdk-dynamodb = { version = "1", default-features = false, features = ["behavior-version-latest"] }
lambda_http = "*"
rocket = { version = "0.5", features = ["json"] }
serde = { version = "1", features = ["derive"] }
serde_dynamo = { version = "4", features = ["aws-sdk-dynamodb+1"] }
serde_json = "1"
tokio = { version = "1", features = ["macros", "rt-multi-thread"] }
tracing = "0.1"
tracing-subscriber = "0.3"
uuid = { version = "1", features = ["v4"] }
