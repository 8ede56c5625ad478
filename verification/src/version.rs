//! Format versions, and when a reader can take a source.

use vstd::prelude::*;
use crate::digits::{digits_end, run_value, scan_number};
use crate::error::MigrationError;

verus! {

/// A semantic version: major, minor, patch.
#[derive(Clone, Copy, Debug, PartialEq, Eq, Structural)]
pub struct Version {
    pub major: u64,
    pub minor: u64,
    pub patch: u64,
}

impl Version {
    /// `self` comes strictly before `other`: the first differing component
    /// of major, minor, patch is smaller.
    pub open spec fn precedes(self, other: Version) -> bool {
        self.major < other.major || (self.major == other.major && (self.minor < other.minor
            || (self.minor == other.minor && self.patch < other.patch)))
    }

    /// Whether `self` is an older version than `other`.
    pub fn is_older_than(&self, other: &Version) -> (older: bool)
        ensures
            older == self.precedes(*other),
    {
        if self.major != other.major {
            self.major < other.major
        } else if self.minor != other.minor {
            self.minor < other.minor
        } else {
            self.patch < other.patch
        }
    }
}

/// What a serialised object, or a reader, publishes about its format.
pub struct SerialisationMeta {
    /// The name of the producer.
    pub producer: String,
    /// The oldest version that can still read, or be read by, this one.
    pub min_version: Version,
    /// The producer's own version.
    pub version: Version,
}

/// The version that a text writes: three runs of digits, none empty and
/// each within 64 bits, with one dot between them. After the third run the
/// text ends, or a suffix follows that begins with `-` or `+` and is not
/// read. `None` for every other text.
pub open spec fn version_of(text: Seq<u8>) -> Option<Version> {
    let a = digits_end(text, 0);
    let b = digits_end(text, a + 1);
    let c = digits_end(text, b + 1);
    if 0 < a < text.len() && text[a] == 46 && a + 1 < b < text.len() && text[b] == 46 && b + 1 < c
        && (c == text.len() || text[c] == 45 || text[c] == 43) && run_value(text, 0, a) <= u64::MAX && run_value(text, a + 1, b)
        <= u64::MAX && run_value(text, b + 1, c) <= u64::MAX {
        Some(
            Version {
                major: run_value(text, 0, a) as u64,
                minor: run_value(text, a + 1, b) as u64,
                patch: run_value(text, b + 1, c) as u64,
            },
        )
    } else {
        None
    }
}

/// Reads a version from its text, as `version_of` defines it.
pub fn parse_version(text: &[u8]) -> (r: Option<Version>)
    ensures
        r == version_of(text@),
{
    let (a, major) = scan_number(text, 0);
    if a == 0 || a >= text.len() || text[a] != 46 {
        return None;
    }
    let (b, minor) = scan_number(text, a + 1);
    if b == a + 1 || b >= text.len() || text[b] != 46 {
        return None;
    }
    let (c, patch) = scan_number(text, b + 1);
    if c == b + 1 || (c != text.len() && text[c] != 45 && text[c] != 43) {
        return None;
    }
    match (major, minor, patch) {
        (Some(major), Some(minor), Some(patch)) => Some(Version { major, minor, patch }),
        _ => None,
    }
}

impl SerialisationMeta {
    /// The descriptor of a producer whose own version comes as text. A text
    /// that writes no version makes the object unsupported.
    pub fn from_fields(producer: String, min_version: Version, version_text: &[u8]) -> (r: Result<
        SerialisationMeta,
        MigrationError,
    >)
        ensures
            match version_of(version_text@) {
                Some(version) => r is Ok && r->Ok_0.producer == producer && r->Ok_0.min_version
                    == min_version && r->Ok_0.version == version,
                None => r is Err && r->Err_0 == MigrationError::NotASupportedObject,
            },
    {
        match parse_version(version_text) {
            Some(version) => Ok(SerialisationMeta { producer, min_version, version }),
            None => Err(MigrationError::NotASupportedObject),
        }
    }
}

/// The reader can take the source: the source is not older than the oldest
/// version the reader supports, and does not ask for a reader newer than
/// this one.
pub open spec fn readable(reader: SerialisationMeta, source: SerialisationMeta) -> bool {
    !source.version.precedes(reader.min_version) && !reader.version.precedes(source.min_version)
}

/// The version gate: passes exactly where `readable` holds, and otherwise
/// fails with `IncompatibleVersion`.
pub fn check_format(reader: &SerialisationMeta, source: &SerialisationMeta) -> (r: Result<
    (),
    MigrationError,
>)
    ensures
        r is Ok <==> readable(*reader, *source),
        r is Err ==> r == Err::<(), MigrationError>(MigrationError::IncompatibleVersion),
{
    if source.version.is_older_than(&reader.min_version) {
        Err(MigrationError::IncompatibleVersion)
    } else if reader.version.is_older_than(&source.min_version) {
        Err(MigrationError::IncompatibleVersion)
    } else {
        Ok(())
    }
}

} // verus!
