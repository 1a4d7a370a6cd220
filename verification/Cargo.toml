[package]
name = "ec2_admin"
version = "0.1.0"
edition = "2021"
publish = false

[dependencies]
serde = "=1.0.229"
serde_json = "=1.0.154"
jsonwebtoken = "=9.3.1"
tokio = { version = "=1.54.1", features = ["macros", "rt-multi-thread"] }
lambda_runtime = "=1.5.0"
aws-config = { version = "=1.13.0", features = ["behavior-version-latest"] }
