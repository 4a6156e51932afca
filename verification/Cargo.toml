[package]
name = "s3reader"
version = "1.0.0"
edition = "2021"
publish = false

[dependencies]
aws-config = { version = "*", default-features = false }
aws-sdk-s3 = { version = "*", default-features = false }
aws-types = "*"
bytes = "*"
thiserror = "*"
tokio = { version = "*", features = ["rt-multi-thread"] }
