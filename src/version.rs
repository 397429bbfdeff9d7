use vstd::prelude::*;
use vstd::string::*;
use crate::text::{decimal, push_decimal};

verus! {

#[verifier::external_type_specification]
#[verifier::external_body]
pub struct ExSemverVersion(semver::Version);

/// The mathematical content of a semantic version.
pub ghost struct VersionModel {
    pub major: u64,
    pub minor: u64,
    pub patch: u64,
    pub pre: Seq<char>,
    pub build: Seq<char>,
}

/// A semantic version `major.minor.patch[-pre][+build]`, as read by the
/// semver crate. Its numbers and labels are plain values; the parsed form
/// is kept for the crate's comparisons and range checks.
#[derive(Debug)]
pub struct SemVersion {
    major: u64,
    minor: u64,
    patch: u64,
    pre: String,
    build: String,
    parsed: semver::Version,
}

impl View for SemVersion {
    type V = VersionModel;

    closed spec fn view(&self) -> VersionModel {
        VersionModel {
            major: self.major,
            minor: self.minor,
            patch: self.patch,
            pre: self.pre@,
            build: self.build@,
        }
    }
}

/// Strict precedence on `(major, minor, patch)`, where a pre-release ranks
/// below the release with the same numbers.
pub open spec fn precedes(a: VersionModel, b: VersionModel) -> bool {
    if a.major != b.major {
        a.major < b.major
    } else if a.minor != b.minor {
        a.minor < b.minor
    } else if a.patch != b.patch {
        a.patch < b.patch
    } else {
        a.pre.len() > 0 && b.pre.len() == 0
    }
}

/// Canonical text of a version: `major.minor.patch`, then `-pre` and `+build`
/// where those labels are present.
pub open spec fn version_text(v: VersionModel) -> Seq<char> {
    let core = decimal(v.major as nat) + seq!['.'] + decimal(v.minor as nat) + seq!['.']
        + decimal(v.patch as nat);
    let with_pre = if v.pre.len() > 0 { core + seq!['-'] + v.pre } else { core };
    if v.build.len() > 0 { with_pre + seq!['+'] + v.build } else { with_pre }
}

/// What semver's strict parser makes of a text, if it accepts it.
pub uninterp spec fn semver_parse(text: Seq<char>) -> Option<VersionModel>;

/// Whether semver's total order on versions puts `a` above `b`.
pub uninterp spec fn semver_greater(a: VersionModel, b: VersionModel) -> bool;

/// Relies on semver::Version::parse: strict `major.minor.patch[-pre][+build]`
/// parsing, whose outcome depends on the text alone.
#[verifier::external_body]
fn parse_semver(text: &str) -> (r: Option<SemVersion>)
    ensures
        r matches Some(v) ==> semver_parse(text@) == Some(v@),
        r is None ==> semver_parse(text@) is None,
{
    match semver::Version::parse(text) {
        Ok(v) => Some(SemVersion {
            major: v.major,
            minor: v.minor,
            patch: v.patch,
            pre: v.pre.as_str().to_string(),
            build: v.build.as_str().to_string(),
            parsed: v,
        }),
        Err(_) => None,
    }
}

/// Relies on semver::Version's `Ord`, which orders by the numbers, then the
/// pre-release identifiers, then the build metadata.
#[verifier::external_body]
fn semver_gt(a: &SemVersion, b: &SemVersion) -> (r: bool)
    ensures
        r == semver_greater(a@, b@),
{
    a.parsed > b.parsed
}

impl SemVersion {
    /// Parses a bare version text such as `3.20.2` or `3.20.2-rc1`.
    pub fn parse(text: &str) -> (r: Option<SemVersion>)
        ensures
            r matches Some(v) ==> semver_parse(text@) == Some(v@),
            r is None <==> semver_parse(text@) is None,
    {
        parse_semver(text)
    }

    pub fn major(&self) -> (r: u64)
        ensures
            r == self@.major,
    {
        self.major
    }

    pub fn minor(&self) -> (r: u64)
        ensures
            r == self@.minor,
    {
        self.minor
    }

    pub fn patch(&self) -> (r: u64)
        ensures
            r == self@.patch,
    {
        self.patch
    }

    /// The pre-release label, empty for a release.
    pub fn pre(&self) -> (r: &str)
        ensures
            r@ == self@.pre,
    {
        self.pre.as_str()
    }

    /// The build metadata, empty where there is none.
    pub fn build(&self) -> (r: &str)
        ensures
            r@ == self@.build,
    {
        self.build.as_str()
    }

    /// The version as semver holds it.
    pub(crate) fn semver(&self) -> &semver::Version {
        &self.parsed
    }

    /// Whether this version carries a pre-release label.
    pub fn is_prerelease(&self) -> (r: bool)
        ensures
            r == (self@.pre.len() > 0),
    {
        !self.pre.as_str().is_empty()
    }

    /// Whether `self` ranks strictly below `other` on `(major, minor, patch)`
    /// and the release/pre-release distinction.
    pub fn precedes(&self, other: &SemVersion) -> (r: bool)
        ensures
            r == precedes(self@, other@),
    {
        if self.major != other.major {
            self.major < other.major
        } else if self.minor != other.minor {
            self.minor < other.minor
        } else if self.patch != other.patch {
            self.patch < other.patch
        } else {
            self.is_prerelease() && !other.is_prerelease()
        }
    }

    /// Whether semver's full order puts `self` above `other`; it breaks ties
    /// between versions that `precedes` does not separate.
    pub fn outranks(&self, other: &SemVersion) -> (r: bool)
        ensures
            r == semver_greater(self@, other@),
    {
        semver_gt(self, other)
    }

    /// The canonical text of the version, e.g. `3.20.2` or `3.20.2-rc1`.
    pub fn to_text(&self) -> (r: String)
        ensures
            r@ == version_text(self@),
    {
        proof {
            reveal_strlit(".");
            reveal_strlit("-");
            reveal_strlit("+");
        }
        let mut out = String::new();
        push_decimal(&mut out, self.major);
        out.append(".");
        push_decimal(&mut out, self.minor);
        out.append(".");
        push_decimal(&mut out, self.patch);
        if self.is_prerelease() {
            out.append("-");
            out.append(self.pre.as_str());
        }
        if !self.build.as_str().is_empty() {
            out.append("+");
            out.append(self.build.as_str());
        }
        out
    }
}

} // verus!
