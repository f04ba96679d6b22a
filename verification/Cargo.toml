[package]
name = "dynamo_mapper"
version = "0.1.0"
edition = "2021"
publish = false

[dependencies]
aws-sdk-dynamodb = { version = "1", default-features = false }
thiserror = "1"
