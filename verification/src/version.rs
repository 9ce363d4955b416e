//! The Substrait version this crate targets, and semantic-version
//! compatibility.

use vstd::prelude::*;

verus! {

/// The major number of the Substrait version this crate targets.
pub const SUBSTRAIT_MAJOR: u64 = 0;

/// The minor number of the Substrait version this crate targets.
pub const SUBSTRAIT_MINOR: u64 = 24;

/// The patch number of the Substrait version this crate targets.
pub const SUBSTRAIT_PATCH: u64 = 0;

/// A semantic version: major, minor and patch numbers.
#[derive(Clone, Copy, Debug, PartialEq, Eq, Structural)]
pub struct SemVer {
    /// The major version number.
    pub major: u64,
    /// The minor version number.
    pub minor: u64,
    /// The patch version number.
    pub patch: u64,
}

/// The Substrait version this crate targets; plan versions caret-compatible
/// with it are supported.
pub open spec fn supported_version() -> SemVer {
    SemVer { major: SUBSTRAIT_MAJOR, minor: SUBSTRAIT_MINOR, patch: SUBSTRAIT_PATCH }
}

/// The Substrait version this crate targets.
pub fn supported() -> (v: SemVer)
    ensures
        v == supported_version(),
{
    SemVer { major: SUBSTRAIT_MAJOR, minor: SUBSTRAIT_MINOR, patch: SUBSTRAIT_PATCH }
}

/// Caret compatibility of a version `v` with a requirement `^req`, as the
/// semver rules define it for versions without pre-release parts: the major
/// numbers must agree; a version with a positive major number may then grow
/// in minor and patch, one with major zero and a positive minor number may
/// grow in patch only, and under `^0.0.patch` only the exact version
/// matches.
pub open spec fn caret_matches(req: SemVer, v: SemVer) -> bool {
    if v.major != req.major {
        false
    } else if req.major > 0 {
        v.minor > req.minor || (v.minor == req.minor && v.patch >= req.patch)
    } else if req.minor > 0 {
        v.minor == req.minor && v.patch >= req.patch
    } else {
        v.minor == req.minor && v.patch == req.patch
    }
}

/// Relies on `semver::VersionReq::matches` over one caret comparator with
/// full major, minor and patch numbers and no pre-release: it implements
/// exactly the caret rule stated by [`caret_matches`].
#[verifier::external_body]
fn semver_caret_matches(req: SemVer, v: SemVer) -> (r: bool)
    ensures
        r == caret_matches(req, v),
{
    let comparator = semver::Comparator {
        op: semver::Op::Caret,
        major: req.major,
        minor: Some(req.minor),
        patch: Some(req.patch),
        pre: semver::Prerelease::EMPTY,
    };
    let version_req = semver::VersionReq { comparators: vec![comparator] };
    version_req.matches(&semver::Version::new(v.major, v.minor, v.patch))
}

/// Whether a plan's version is supported by this crate: true exactly when
/// it is caret-compatible with the targeted Substrait version.
pub fn is_supported_version(v: &SemVer) -> (r: bool)
    ensures
        r == caret_matches(supported_version(), *v),
{
    semver_caret_matches(supported(), *v)
}

} // verus!
