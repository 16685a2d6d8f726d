[package]
name = "legacy_template"
version = "0.1.0"
edition = "2021"
publish = false

[dependencies]
dynamo-protocols = "*"
