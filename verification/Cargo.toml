[package]
name = "s3_from_env"
version = "0.1.0"
edition = "2021"
publish = false
