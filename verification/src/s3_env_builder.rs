//! The configuration builder: optional string inputs in, a validated,
//! immutable object-store configuration out.

use vstd::prelude::*;
use crate::error::BuildError;

verus! {

/// The resolved, immutable object-store configuration produced by
/// `S3FromEnvBuilder::build`. Its required fields (region, bucket name,
/// allow-http) are always present: their absence is a build-time failure,
/// not a representable state.
#[derive(Clone, Debug, PartialEq)]
pub struct S3FromEnv {
    pub region: String,
    pub bucket_name: String,
    pub access_key_id: Option<String>,
    pub secret_key: Option<String>,
    pub endpoint: Option<String>,
    pub allow_http: bool,
}

/// The mathematical value of a resolved configuration: each string as a
/// sequence of characters.
#[verifier::ext_equal]
pub ghost struct ConfigView {
    pub region: Seq<char>,
    pub bucket_name: Seq<char>,
    pub access_key_id: Option<Seq<char>>,
    pub secret_key: Option<Seq<char>>,
    pub endpoint: Option<Seq<char>>,
    pub allow_http: bool,
}

impl View for S3FromEnv {
    type V = ConfigView;

    open spec fn view(&self) -> ConfigView {
        ConfigView {
            region: self.region@,
            bucket_name: self.bucket_name@,
            access_key_id: self.access_key_id.deep_view(),
            secret_key: self.secret_key.deep_view(),
            endpoint: self.endpoint.deep_view(),
            allow_http: self.allow_http,
        }
    }
}

/// The string a boolean is rendered as in a storage-options entry.
pub open spec fn bool_text(b: bool) -> Seq<char> {
    if b {
        "true"@
    } else {
        "false"@
    }
}

impl ConfigView {
    /// The storage-option entries a configuration maps to, in order. The
    /// last entry, the allow-unsafe-rename flag, is a fixed requirement of
    /// table-format backends that are not native S3, not a builder field.
    pub open spec fn storage_options(self) -> Seq<(Seq<char>, Seq<char>)>
        recommends
            self.access_key_id is Some,
            self.secret_key is Some,
            self.endpoint is Some,
    {
        seq![
            ("AWS_REGION"@, self.region),
            ("AWS_ACCESS_KEY_ID"@, self.access_key_id->0),
            ("AWS_SECRET_ACCESS_KEY"@, self.secret_key->0),
            ("ALLOW_HTTP"@, bool_text(self.allow_http)),
            ("ENDPOINT"@, self.endpoint->0),
            ("AWS_S3_ALLOW_UNSAFE_RENAME"@, "true"@),
        ]
    }
}

impl S3FromEnv {
    /// The key/value entries handed to the table-format library's
    /// storage-options map, exactly the six entries of
    /// `ConfigView::storage_options` in order. The optional fields must all
    /// be present: callers that allow anonymous or default-endpoint access
    /// have no storage-options map to build.
    pub fn storage_options(&self) -> (opts: Vec<(String, String)>)
        requires
            self.access_key_id is Some,
            self.secret_key is Some,
            self.endpoint is Some,
        ensures
            opts.deep_view() == self@.storage_options(),
    {
        let mut opts: Vec<(String, String)> = Vec::new();
        opts.push(("AWS_REGION".to_owned(), self.region.clone()));
        opts.push(("AWS_ACCESS_KEY_ID".to_owned(), self.access_key_id.as_ref().unwrap().clone()));
        opts.push(("AWS_SECRET_ACCESS_KEY".to_owned(), self.secret_key.as_ref().unwrap().clone()));
        let allow: String = if self.allow_http {
            "true".to_owned()
        } else {
            "false".to_owned()
        };
        opts.push(("ALLOW_HTTP".to_owned(), allow));
        opts.push(("ENDPOINT".to_owned(), self.endpoint.as_ref().unwrap().clone()));
        opts.push(("AWS_S3_ALLOW_UNSAFE_RENAME".to_owned(), "true".to_owned()));
        proof {
            assert(opts.deep_view() =~= self@.storage_options());
        }
        opts
    }
}

/// Transient builder state: every field optional. Region and allow-http
/// start from defaults; the bucket name and the credentials start absent.
#[derive(Clone, Debug, PartialEq)]
pub struct S3FromEnvBuilder {
    pub region: Option<String>,
    pub bucket_name: Option<String>,
    pub access_key_id: Option<String>,
    pub secret_key: Option<String>,
    pub endpoint: Option<String>,
    pub allow_http: Option<bool>,
}

/// The mathematical value of a builder state.
#[verifier::ext_equal]
pub ghost struct BuilderView {
    pub region: Option<Seq<char>>,
    pub bucket_name: Option<Seq<char>>,
    pub access_key_id: Option<Seq<char>>,
    pub secret_key: Option<Seq<char>>,
    pub endpoint: Option<Seq<char>>,
    pub allow_http: Option<bool>,
}

impl View for S3FromEnvBuilder {
    type V = BuilderView;

    open spec fn view(&self) -> BuilderView {
        BuilderView {
            region: self.region.deep_view(),
            bucket_name: self.bucket_name.deep_view(),
            access_key_id: self.access_key_id.deep_view(),
            secret_key: self.secret_key.deep_view(),
            endpoint: self.endpoint.deep_view(),
            allow_http: self.allow_http,
        }
    }
}

/// The textual-boolean policy for the allow-http flag: exactly the literal
/// `"true"` parses to `true`; every other string, malformed input included,
/// is taken as `false`.
pub open spec fn parse_allow_http(s: Seq<char>) -> bool {
    s == "true"@
}

impl BuilderView {
    /// The initial builder state: region and allow-http hold their defaults,
    /// every other field is absent.
    pub open spec fn init() -> BuilderView {
        BuilderView {
            region: Some("us-west-1"@),
            bucket_name: None,
            access_key_id: None,
            secret_key: None,
            endpoint: None,
            allow_http: Some(false),
        }
    }

    pub open spec fn with_region(self, s: Seq<char>) -> BuilderView {
        BuilderView { region: Some(s), ..self }
    }

    pub open spec fn with_bucket_name(self, s: Seq<char>) -> BuilderView {
        BuilderView { bucket_name: Some(s), ..self }
    }

    pub open spec fn with_access_key(self, s: Seq<char>) -> BuilderView {
        BuilderView { access_key_id: Some(s), ..self }
    }

    pub open spec fn with_secret_key(self, s: Seq<char>) -> BuilderView {
        BuilderView { secret_key: Some(s), ..self }
    }

    pub open spec fn with_endpoint(self, s: Seq<char>) -> BuilderView {
        BuilderView { endpoint: Some(s), ..self }
    }

    pub open spec fn with_allow_http(self, s: Seq<char>) -> BuilderView {
        BuilderView { allow_http: Some(parse_allow_http(s)), ..self }
    }

    /// Every field `build` requires is available.
    pub open spec fn complete(self) -> bool {
        self.region is Some && self.bucket_name is Some && self.allow_http is Some
    }

    /// What finalizing this state returns: the first missing required field
    /// is reported, in the order region, bucket name, allow-http; otherwise
    /// the resolved configuration, carrying each field as it stands here.
    pub open spec fn build(self) -> Result<ConfigView, BuildError> {
        match self.region {
            None => Err(BuildError::MissingRegion),
            Some(region) => match self.bucket_name {
                None => Err(BuildError::MissingBucketName),
                Some(bucket_name) => match self.allow_http {
                    None => Err(BuildError::MissingAllowHttp),
                    Some(allow_http) => Ok(ConfigView {
                        region,
                        bucket_name,
                        access_key_id: self.access_key_id,
                        secret_key: self.secret_key,
                        endpoint: self.endpoint,
                        allow_http,
                    }),
                },
            },
        }
    }
}

impl Default for S3FromEnvBuilder {
    /// The default builder state: region `"us-west-1"`, allow-http `false`,
    /// every other field unset.
    fn default() -> (b: Self)
        ensures
            b@ == BuilderView::init(),
    {
        S3FromEnvBuilder {
            region: Some("us-west-1".to_owned()),
            bucket_name: None,
            access_key_id: None,
            secret_key: None,
            endpoint: None,
            allow_http: Some(false),
        }
    }
}

/// Clones an optional string field.
fn clone_opt(o: &Option<String>) -> (r: Option<String>)
    ensures
        r == *o,
{
    match o {
        Some(s) => Some(s.clone()),
        None => None,
    }
}

impl S3FromEnvBuilder {
    /// A fresh builder holding the default region and allow-http values.
    pub fn new() -> (b: Self)
        ensures
            b@ == BuilderView::init(),
    {
        S3FromEnvBuilder::default()
    }

    /// Sets the region; the last write wins.
    pub fn set_region(self, region: String) -> (r: Self)
        ensures
            r@ == self@.with_region(region@),
    {
        S3FromEnvBuilder { region: Some(region), ..self }
    }

    /// Sets the bucket name; the last write wins.
    pub fn set_bucket_name(self, bucket_name: String) -> (r: Self)
        ensures
            r@ == self@.with_bucket_name(bucket_name@),
    {
        S3FromEnvBuilder { bucket_name: Some(bucket_name), ..self }
    }

    /// Sets the access key id; the last write wins.
    pub fn set_access_key(self, access_key_id: String) -> (r: Self)
        ensures
            r@ == self@.with_access_key(access_key_id@),
    {
        S3FromEnvBuilder { access_key_id: Some(access_key_id), ..self }
    }

    /// Sets the secret key; the last write wins.
    pub fn set_secret_key(self, secret_key: String) -> (r: Self)
        ensures
            r@ == self@.with_secret_key(secret_key@),
    {
        S3FromEnvBuilder { secret_key: Some(secret_key), ..self }
    }

    /// Sets the endpoint URL; the last write wins.
    pub fn set_endpoint(self, endpoint: String) -> (r: Self)
        ensures
            r@ == self@.with_endpoint(endpoint@),
    {
        S3FromEnvBuilder { endpoint: Some(endpoint), ..self }
    }

    /// Parses the textual allow-http flag: the exact literal `"true"`
    /// enables it, any other text falls back to `false`.
    pub fn allow_http(self, allow_http: String) -> (r: Self)
        ensures
            r@ == self@.with_allow_http(allow_http@),
    {
        let truth: String = "true".to_owned();
        let flag: bool = allow_http == truth;
        S3FromEnvBuilder { allow_http: Some(flag), ..self }
    }

    /// Finalizes the builder into a resolved configuration. Fails with the
    /// first required field that is absent; succeeds exactly when the state
    /// is complete, copying every field over unchanged.
    pub fn build(&self) -> (r: Result<S3FromEnv, BuildError>)
        ensures
            match r {
                Ok(c) => self@.build() == Ok::<ConfigView, BuildError>(c@),
                Err(e) => self@.build() == Err::<ConfigView, BuildError>(e),
            },
    {
        let region: String = match &self.region {
            Some(s) => s.clone(),
            None => {
                return Err(BuildError::MissingRegion);
            },
        };
        let bucket_name: String = match &self.bucket_name {
            Some(s) => s.clone(),
            None => {
                return Err(BuildError::MissingBucketName);
            },
        };
        let allow_http: bool = match self.allow_http {
            Some(b) => b,
            None => {
                return Err(BuildError::MissingAllowHttp);
            },
        };
        Ok(S3FromEnv {
            region,
            bucket_name,
            access_key_id: clone_opt(&self.access_key_id),
            secret_key: clone_opt(&self.secret_key),
            endpoint: clone_opt(&self.endpoint),
            allow_http,
        })
    }
}

/// A required field that was never supplied makes a build fail with the
/// error naming that field, and a build succeeds exactly when the state is
/// complete; a successful build carries the region and bucket name from the
/// builder itself, never a substitute.
pub proof fn lemma_missing_field_fails(b: BuilderView)
    ensures
        b.region is None ==> b.build() == Err::<ConfigView, BuildError>(BuildError::MissingRegion),
        b.region is Some && b.bucket_name is None ==> b.build() == Err::<ConfigView, BuildError>(
            BuildError::MissingBucketName,
        ),
        b.region is Some && b.bucket_name is Some && b.allow_http is None ==> b.build()
            == Err::<ConfigView, BuildError>(BuildError::MissingAllowHttp),
        b.build() is Ok <==> b.complete(),
        b.build() matches Ok(c) ==> c.region == b.region->0 && c.bucket_name == b.bucket_name->0,
{
}

/// Setting the same field twice keeps only the last write, for every field.
pub proof fn lemma_last_write_wins(b: BuilderView, s1: Seq<char>, s2: Seq<char>)
    ensures
        b.with_region(s1).with_region(s2) == b.with_region(s2),
        b.with_bucket_name(s1).with_bucket_name(s2) == b.with_bucket_name(s2),
        b.with_access_key(s1).with_access_key(s2) == b.with_access_key(s2),
        b.with_secret_key(s1).with_secret_key(s2) == b.with_secret_key(s2),
        b.with_endpoint(s1).with_endpoint(s2) == b.with_endpoint(s2),
        b.with_allow_http(s1).with_allow_http(s2) == b.with_allow_http(s2),
{
}

/// Finalizing is a pure function of the builder state: any two builds of
/// the same state return equal results, with no hidden counters or side
/// effects.
pub proof fn lemma_build_idempotent(
    b: BuilderView,
    r1: Result<ConfigView, BuildError>,
    r2: Result<ConfigView, BuildError>,
)
    requires
        r1 == b.build(),
        r2 == b.build(),
    ensures
        r1 == r2,
{
}

/// The defaults: a builder whose region was never set resolves it to
/// `"us-west-1"` and its allow-http flag to `false`; only the bucket name
/// must be supplied, and without it the build fails naming the bucket.
pub proof fn lemma_defaults(bucket: Seq<char>)
    ensures
        BuilderView::init().with_bucket_name(bucket).build() == Ok::<ConfigView, BuildError>(
            ConfigView {
                region: "us-west-1"@,
                bucket_name: bucket,
                access_key_id: None,
                secret_key: None,
                endpoint: None,
                allow_http: false,
            },
        ),
        BuilderView::init().build() == Err::<ConfigView, BuildError>(BuildError::MissingBucketName),
{
}

/// The allow-http text policy: exactly the literal `"true"` resolves to
/// `true`; `"false"`, the empty string, and every other text resolve to
/// `false`.
pub proof fn lemma_allow_http_policy(s: Seq<char>)
    ensures
        parse_allow_http(s) <==> s == "true"@,
{
}

} // verus!
