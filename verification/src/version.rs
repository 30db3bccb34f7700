//! Constrained schema-version markers for the draft era.
//!
//! The draft era marks its documents with a PEP 440 version that must lie
//! at or above the era's first development release. Parsing is done by an
//! outside crate; the constraint check runs on the parsed plain values.

use vstd::prelude::*;

use crate::errors::Error;

verus! {

/// What `pep440_rs::Version::from_str` parses out of a version string:
/// the epoch and the release segments, or nothing when the string is not
/// a valid PEP 440 version. The result depends on the string alone.
pub uninterp spec fn pep440_version_parts(s: Seq<char>) -> Option<(u64, Seq<u64>)>;

/// Relies on `pep440_rs::Version::from_str`: parses a PEP 440 version
/// string, handing back its epoch and release segments.
#[verifier::external_body]
fn parse_version_parts(s: &str) -> (r: Option<(u64, Vec<u64>)>)
    ensures
        match (r, pep440_version_parts(s@)) {
            (Some(parts), Some(spec_parts)) => parts.0 == spec_parts.0 && parts.1@
                == spec_parts.1,
            (None, None) => true,
            _ => false,
        },
{
    match <pep440_rs::Version as core::str::FromStr>::from_str(s) {
        Ok(v) => Some((v.epoch(), v.release().to_vec())),
        Err(_) => None,
    }
}

/// Whether a parsed version lies at or above the draft era's first
/// development release: a positive epoch, or a release at or above the
/// era's number. The development release with that number is the smallest
/// version carrying it, so no finer comparison is needed.
pub open spec fn spec_satisfies_constraint(epoch: u64, release: Seq<u64>) -> bool {
    let r0: u64 = if release.len() >= 1 {
        release[0]
    } else {
        0
    };
    let r1: u64 = if release.len() >= 2 {
        release[1]
    } else {
        0
    };
    epoch > 0 || r0 > 0 || r1 >= 6
}

/// A PEP 440 version at or above the draft era's first development
/// release.
#[derive(Debug)]
pub struct ConstrainedVersion {
    /// The version string as given.
    pub text: String,
    /// The parsed epoch.
    pub epoch: u64,
    /// The parsed release segments.
    pub release: Vec<u64>,
}

impl ConstrainedVersion {
    /// Whether the stored parts are the parse of the stored text and lie
    /// within the constraint.
    pub open spec fn wf(&self) -> bool {
        &&& pep440_version_parts(self.text@) == Some((self.epoch, self.release@))
        &&& spec_satisfies_constraint(self.epoch, self.release@)
    }

    /// Parse a version string and hold it to the constraint.
    pub fn from_str(s: &str) -> (r: Result<ConstrainedVersion, Error>)
        ensures
            r is Ok <==> (pep440_version_parts(s@) matches Some(parts)
                && spec_satisfies_constraint(parts.0, parts.1)),
            r matches Ok(v) ==> v.wf() && v.text@ == s@,
    {
        match parse_version_parts(s) {
            Some((epoch, release)) => {
                let r0: u64 = if release.len() >= 1 {
                    release[0]
                } else {
                    0
                };
                let r1: u64 = if release.len() >= 2 {
                    release[1]
                } else {
                    0
                };
                if epoch > 0 || r0 > 0 || r1 >= 6 {
                    Ok(ConstrainedVersion { text: s.to_owned(), epoch, release })
                } else {
                    Err(Error::General(String::from_str(s)))
                }
            },
            None => Err(Error::General(String::from_str(s))),
        }
    }

    /// The version string as given.
    pub fn as_str(&self) -> (r: &str)
        ensures
            r@ == self.text@,
    {
        self.text.as_str()
    }
}

} // verus!
