//! The error a configuration build reports.

use vstd::prelude::*;

verus! {

/// Returned by `S3FromEnvBuilder::build` when a required field was never
/// supplied and has no default: the variant names the missing field.
#[derive(Clone, Copy, Debug, PartialEq, Eq, Structural)]
pub enum BuildError {
    MissingRegion,
    MissingBucketName,
    MissingAllowHttp,
}

impl BuildError {
    /// A diagnostic line naming the missing field.
    pub fn message(&self) -> (m: String)
        ensures
            *self == BuildError::MissingRegion ==> m@ == "missing required field: region"@,
            *self == BuildError::MissingBucketName ==> m@ == "missing required field: bucket name"@,
            *self == BuildError::MissingAllowHttp ==> m@ == "missing required field: allow-http"@,
    {
        match self {
            BuildError::MissingRegion => "missing required field: region".to_owned(),
            BuildError::MissingBucketName => "missing required field: bucket name".to_owned(),
            BuildError::MissingAllowHttp => "missing required field: allow-http".to_owned(),
        }
    }
}

} // verus!
