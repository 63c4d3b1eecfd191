[package]
name = "shimesu"
version = "0.1.0"
edition = "2021"
publish = false

[dependencies]
mime_guess = "2"
sha2 = "0.10"
hex = "0.4"
zip = { version = "*", default-features = false, features = ["deflate"] }
clap = { version = "4", features = ["derive", "env"] }
serde = { version = "1", features = ["derive"] }
serde_json = "1"
toml = "*"
dirs = "*"
dialoguer = "*"
owo-colors = "*"
indicatif = "*"
tokio = { version = "1", features = ["full"] }
tracing = "0.1"
tracing-subscriber = { version = "0.3", features = ["env-filter", "fmt"] }
futures = "0.3"
walkdir = "2"
tempfile = "3"
chrono = "0.4"
ulid = "*"
aws-config = { version = "1", features = ["behavior-version-latest"] }
aws-sdk-acm = "1"
aws-sdk-cloudformation = "1"
aws-sdk-cloudfront = "1"
aws-sdk-dynamodb = "1"
aws-sdk-route53 = "1"
aws-sdk-s3 = "1"
aws-sdk-sts = "1"
