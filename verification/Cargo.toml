[package]
name = "grpc-messaging"
version = "0.1.0"
edition = "2021"
publish = false

[dependencies]
uuid = { version = "1", features = ["v4"] }
aws-config = "1"
aws-sdk-dynamodb = "1"
axum = "0.7"
chrono = "0.4"
dotenv = "0.15"
socketioxide = "0.14"
tokio = { version = "1", features = ["full"] }
tonic = "0.12"
tower = "0.4"
tower-http = { version = "0.5", features = ["cors"] }
tracing = "0.1"
tracing-subscriber = "0.3"
