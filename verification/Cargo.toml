[package]
name = "awstgbot"
version = "0.1.0"
edition = "2021"
publish = false

[dependencies]
chrono = "=0.4.45"
teloxide = { version = "=0.13.0", features = ["macros"] }
# teloxide-core accepts any takecell 0.1; 0.1.2 needs Rust 1.96, newer than the
# compiler this crate is built with, so 0.1.1 is chosen here.
takecell = "=0.1.1"
aws-config = "=1.13.0"
aws-sdk-lightsail = "=1.135.0"
aws-smithy-types = "=1.9.1"
aws-smithy-runtime-api = "=1.19.2"
tokio = { version = "=1.54.1", features = ["full"] }
tokio-util = { version = "=0.7.20", features = ["codec"] }
futures = "=0.3.34"
lambda_runtime = "=0.13.0"
aws_lambda_events = { version = "=0.15.1", default-features = false, features = ["lambda_function_urls"] }
serde_json = "=1.0.154"
url = "=2.5.8"
base64 = "=0.13.1"
