//! The API versions the engine supports, and how version strings are read.

use vstd::prelude::*;

verus! {

/// An API version this conversion engine understands.
#[derive(Clone, Copy, PartialEq, Eq, Debug, Structural)]
pub enum Version {
    V1,
    V2,
}

/// The canonical `apiVersion` string of a supported version.
pub open spec fn spec_version_str(v: Version) -> Seq<char> {
    match v {
        Version::V1 => "v1"@,
        Version::V2 => "v2"@,
    }
}

/// What reading an `apiVersion` string yields: a supported version, or
/// `None` for any other string.
pub open spec fn spec_parse_version(s: Seq<char>) -> Option<Version> {
    if s == "v1"@ {
        Some(Version::V1)
    } else if s == "v2"@ {
        Some(Version::V2)
    } else {
        None
    }
}

/// Render a supported version as its `apiVersion` string.
pub fn version_str(v: Version) -> (r: String)
    ensures
        r@ == spec_version_str(v),
{
    match v {
        Version::V1 => "v1".to_owned(),
        Version::V2 => "v2".to_owned(),
    }
}

/// Read an `apiVersion` string; `None` means the version is unsupported.
pub fn parse_version(s: &String) -> (r: Option<Version>)
    ensures
        r == spec_parse_version(s@),
{
    if *s == "v1".to_owned() {
        Some(Version::V1)
    } else if *s == "v2".to_owned() {
        Some(Version::V2)
    } else {
        None
    }
}

} // verus!
