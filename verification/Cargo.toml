[package]
name = "alternator_validator"
version = "0.1.0"
edition = "2021"
publish = false

[dependencies]
async-backtrace = "*"
aws-config = { version = "*", features = ["behavior-version-latest"] }
aws-credential-types = { version = "*", features = ["hardcoded-credentials"] }
aws-sdk-dynamodb = { version = "*", features = ["behavior-version-latest"] }
aws-smithy-runtime-api = { version = "*", features = ["client", "http-1x"] }
aws-smithy-types = "*"
http = "*"
serde_json = "*"
tracing = "*"
