[package]
name = "rust_lang_retweet"
version = "0.1.0"
edition = "2021"
publish = false

[dependencies]
anyhow = "1"
aws-config = "*"
aws-sdk-dynamodb = "*"
chrono = "0.4"
lambda_runtime = "0.4"
oauth2 = "4"
reqwest = { version = "0.11", features = ["json"] }
serde = { version = "1", features = ["derive"] }
serde_json = "1"
tokio = { version = "1", features = ["macros", "rt-multi-thread"] }
