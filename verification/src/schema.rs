//! Schema versions of stored profiles.

use vstd::prelude::*;
use vstd::string::*;

verus! {

/// The numbers of the semantic version that `text` spells, major first, if
/// it spells one.
pub uninterp spec fn semver_numbers(text: Seq<char>) -> Option<(u64, u64, u64)>;

/// Parses `text` with `semver::Version::parse` and hands out the numbers of
/// the version.
///
/// Trusted: the result depends on `text` alone.
#[verifier::external_body]
pub(crate) fn parse_semver(text: &str) -> (r: Option<(u64, u64, u64)>)
    ensures
        r == semver_numbers(text@),
{
    match semver::Version::parse(text) {
        Ok(v) => Some((v.major, v.minor, v.patch)),
        Err(_) => None,
    }
}

/// The version of the schema that this crate writes, as text.
pub open spec fn current_schema_text() -> Seq<char> {
    "1.0.0"@
}

/// The version of the schema that this crate writes.
pub const CURRENT_SCHEMA_VERSION: &'static str = "1.0.0";

/// Whether a profile of version `this` can be read where the schema is at
/// `current`: both are versions, of one major number, and `this` has no
/// higher minor number.
pub open spec fn compatible(this: Option<(u64, u64, u64)>, current: Option<(u64, u64, u64)>) -> bool {
    match (this, current) {
        (Some(a), Some(b)) => a.0 == b.0 && a.1 <= b.1,
        _ => false,
    }
}

/// Whether a profile of version `this` can be read where the schema is at `current`.
pub fn versions_compatible(this: Option<(u64, u64, u64)>, current: Option<(u64, u64, u64)>) -> (r:
    bool)
    ensures
        r == compatible(this, current),
{
    match (this, current) {
        (Some(a), Some(b)) => a.0 == b.0 && a.1 <= b.1,
        _ => false,
    }
}

/// A schema version, kept as the text that was stored.
#[derive(Clone, Debug, PartialEq, Eq)]
pub struct SchemaVersion(pub String);

impl View for SchemaVersion {
    type V = Seq<char>;

    open spec fn view(&self) -> Seq<char> {
        self.0@
    }
}

impl Default for SchemaVersion {
    fn default() -> (r: Self)
        ensures
            r@ == current_schema_text(),
    {
        SchemaVersion::current()
    }
}

impl SchemaVersion {
    /// The schema version written as `version`.
    pub fn new(version: &str) -> (r: Self)
        ensures
            r@ == version@,
    {
        SchemaVersion(String::from_str(version))
    }

    /// The version of the schema that this crate writes.
    pub fn current() -> (r: Self)
        ensures
            r@ == current_schema_text(),
    {
        SchemaVersion(String::from_str("1.0.0"))
    }

    /// The numbers of the version, if its text is a semantic version.
    pub fn parse(&self) -> (r: Option<(u64, u64, u64)>)
        ensures
            r == semver_numbers(self@),
    {
        parse_semver(self.0.as_str())
    }

    /// Whether profiles of this version can be read by this crate.
    pub fn is_compatible(&self) -> (r: bool)
        ensures
            r == compatible(semver_numbers(self@), semver_numbers(current_schema_text())),
    {
        let this: Option<(u64, u64, u64)> = self.parse();
        let current: Option<(u64, u64, u64)> = parse_semver("1.0.0");
        versions_compatible(this, current)
    }

    /// Whether profiles of this version must be rewritten: the version is
    /// not the current one, but can be read.
    pub fn needs_migration(&self) -> (r: bool)
        ensures
            r == (self@ != current_schema_text() && compatible(
                semver_numbers(self@),
                semver_numbers(current_schema_text()),
            )),
    {
        let current: String = String::from_str("1.0.0");
        !(self.0 == current) && self.is_compatible()
    }

    /// The version as text.
    pub fn as_str(&self) -> (r: &str)
        ensures
            r@ == self@,
    {
        self.0.as_str()
    }
}

} // verus!
