use s3_from_env::error::BuildError;
use s3_from_env::s3_env_builder::{S3FromEnv, S3FromEnvBuilder};

fn empty_builder() -> S3FromEnvBuilder {
    S3FromEnvBuilder {
        region: None,
        bucket_name: None,
        access_key_id: None,
        secret_key: None,
        endpoint: None,
        allow_http: None,
    }
}

#[test]
fn missing_region_fails() {
    let b = S3FromEnvBuilder {
        bucket_name: Some("data".to_string()),
        allow_http: Some(false),
        ..empty_builder()
    };
    assert_eq!(b.build(), Err(BuildError::MissingRegion));
}

#[test]
fn missing_bucket_fails() {
    // A fresh builder defaults region and allow-http, but never the bucket.
    let b = S3FromEnvBuilder::new();
    assert_eq!(b.build(), Err(BuildError::MissingBucketName));
}

#[test]
fn missing_allow_http_fails() {
    let b = S3FromEnvBuilder {
        region: Some("eu-central-1".to_string()),
        bucket_name: Some("data".to_string()),
        ..empty_builder()
    };
    assert_eq!(b.build(), Err(BuildError::MissingAllowHttp));
}

#[test]
fn region_reported_before_bucket() {
    let b = empty_builder();
    assert_eq!(b.build(), Err(BuildError::MissingRegion));
}

#[test]
fn default_region_is_us_west_1() {
    let cfg = S3FromEnvBuilder::new()
        .set_bucket_name("data".to_string())
        .build()
        .unwrap();
    assert_eq!(cfg.region, "us-west-1");
}

#[test]
fn default_allow_http_is_false() {
    let cfg = S3FromEnvBuilder::new()
        .set_bucket_name("data".to_string())
        .build()
        .unwrap();
    assert!(!cfg.allow_http);
}

#[test]
fn allow_http_parses_exact_true_only() {
    let base = || S3FromEnvBuilder::new().set_bucket_name("data".to_string());
    let built = |text: &str| base().allow_http(text.to_string()).build().unwrap();
    assert!(built("true").allow_http);
    assert!(!built("false").allow_http);
    assert!(!built("").allow_http);
    assert!(!built("yes").allow_http);
    assert!(!built("True").allow_http);
}

#[test]
fn last_write_wins() {
    let cfg = S3FromEnvBuilder::new()
        .set_region("a".to_string())
        .set_region("b".to_string())
        .set_bucket_name("first".to_string())
        .set_bucket_name("second".to_string())
        .allow_http("true".to_string())
        .allow_http("nope".to_string())
        .build()
        .unwrap();
    assert_eq!(cfg.region, "b");
    assert_eq!(cfg.bucket_name, "second");
    assert!(!cfg.allow_http);
}

#[test]
fn build_is_idempotent() {
    let b = S3FromEnvBuilder::new()
        .set_region("eu-west-2".to_string())
        .set_bucket_name("data".to_string())
        .set_access_key("AKIA".to_string())
        .set_secret_key("secret".to_string())
        .set_endpoint("http://localhost:9000".to_string())
        .allow_http("true".to_string());
    let first = b.build();
    let second = b.build();
    assert_eq!(first, second);
}

#[test]
fn end_to_end_with_defaulted_region() {
    let cfg = S3FromEnvBuilder::new()
        .set_bucket_name("data".to_string())
        .set_access_key("AKIA".to_string())
        .set_secret_key("secret".to_string())
        .set_endpoint("http://localhost:9000".to_string())
        .allow_http("true".to_string())
        .build()
        .unwrap();
    assert_eq!(cfg.region, "us-west-1");
    assert_eq!(cfg.bucket_name, "data");
    assert_eq!(cfg.access_key_id.as_deref(), Some("AKIA"));
    assert_eq!(cfg.secret_key.as_deref(), Some("secret"));
    assert_eq!(cfg.endpoint.as_deref(), Some("http://localhost:9000"));
    assert!(cfg.allow_http);
}

#[test]
fn end_to_end_without_bucket() {
    let r = S3FromEnvBuilder::new()
        .set_region("us-east-1".to_string())
        .set_access_key("AKIA".to_string())
        .set_secret_key("secret".to_string())
        .allow_http("false".to_string())
        .build();
    assert_eq!(r, Err(BuildError::MissingBucketName));
}

#[test]
fn storage_options_entries() {
    let cfg = S3FromEnv {
        region: "us-west-1".to_string(),
        bucket_name: "data".to_string(),
        access_key_id: Some("AKIA".to_string()),
        secret_key: Some("secret".to_string()),
        endpoint: Some("http://localhost:9000".to_string()),
        allow_http: true,
    };
    let opts = cfg.storage_options();
    let expect = vec![
        ("AWS_REGION", "us-west-1"),
        ("AWS_ACCESS_KEY_ID", "AKIA"),
        ("AWS_SECRET_ACCESS_KEY", "secret"),
        ("ALLOW_HTTP", "true"),
        ("ENDPOINT", "http://localhost:9000"),
        ("AWS_S3_ALLOW_UNSAFE_RENAME", "true"),
    ];
    assert_eq!(opts.len(), expect.len());
    for ((k, v), (ek, ev)) in opts.iter().zip(expect.iter()) {
        assert_eq!(k, ek);
        assert_eq!(v, ev);
    }
}

#[test]
fn storage_options_render_allow_http_false() {
    let cfg = S3FromEnv {
        region: "us-west-1".to_string(),
        bucket_name: "data".to_string(),
        access_key_id: Some("AKIA".to_string()),
        secret_key: Some("secret".to_string()),
        endpoint: Some("http://localhost:9000".to_string()),
        allow_http: false,
    };
    let opts = cfg.storage_options();
    assert_eq!(opts[3].0, "ALLOW_HTTP");
    assert_eq!(opts[3].1, "false");
}

#[test]
fn error_messages_name_the_field() {
    assert_eq!(
        BuildError::MissingRegion.message(),
        "missing required field: region"
    );
    assert_eq!(
        BuildError::MissingBucketName.message(),
        "missing required field: bucket name"
    );
    assert_eq!(
        BuildError::MissingAllowHttp.message(),
        "missing required field: allow-http"
    );
}
