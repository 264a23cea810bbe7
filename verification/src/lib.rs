//! A typed configuration builder for S3-compatible object stores.
//!
//! Connection parameters (region, bucket name, credentials, endpoint, the
//! allow-plaintext-http flag) arrive as loosely-typed optional strings; the
//! builder applies defaults, validates that the required fields are present,
//! and produces an immutable, fully-resolved configuration value.

pub mod error;
pub mod s3_env_builder;
