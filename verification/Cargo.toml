[package]
name = "dynamo-es"
version = "0.1.0"
edition = "2021"
publish = false

[dependencies]
async-trait = "*"
aws-sdk-dynamodb = { version = "*", default-features = false }
cqrs-es = "*"
persist-es = "*"
serde_json = "*"
