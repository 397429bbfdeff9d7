use vstd::prelude::*;
use vstd::string::*;
use crate::config::ConfigError;
use crate::version::{SemVersion, VersionModel};

verus! {

#[verifier::external_type_specification]
#[verifier::external_body]
pub struct ExVersionReq(semver::VersionReq);

/// Whether the text ends in a wildcard component, `.x` or `.*`.
pub open spec fn has_wildcard_suffix(s: Seq<char>) -> bool {
    s.len() >= 2 && s[s.len() - 2] == '.' && (s[s.len() - 1] == 'x' || s[s.len() - 1] == '*')
}

/// Whether the text starts with the tag letter `v`.
pub open spec fn has_tag_prefix(s: Seq<char>) -> bool {
    s.len() >= 1 && s[0] == 'v'
}

/// A requested version with one leading `v` and then one trailing wildcard
/// component removed.
pub open spec fn normalized(s: Seq<char>) -> Seq<char> {
    let t = if has_tag_prefix(s) { s.drop_first() } else { s };
    if has_wildcard_suffix(t) { t.subrange(0, t.len() - 2) } else { t }
}

/// A text that normalisation leaves as it is.
pub open spec fn is_normalized(s: Seq<char>) -> bool {
    !has_tag_prefix(s) && !has_wildcard_suffix(s)
}

/// Normalising a text that is already normalised changes nothing; in
/// particular normalising twice is normalising once wherever the first pass
/// leaves a normalised text.
pub proof fn lemma_normalize_idempotent(s: Seq<char>)
    ensures
        is_normalized(s) ==> normalized(s) == s,
        is_normalized(normalized(s)) ==> normalized(normalized(s)) == normalized(s),
{
}

/// Whether semver reads the text as a version requirement.
pub uninterp spec fn semver_req_valid(text: Seq<char>) -> bool;

/// Whether the requirement that semver reads from `req` admits `v`.
pub uninterp spec fn semver_req_admits(req: Seq<char>, v: VersionModel) -> bool;

/// Relies on semver::VersionReq::parse: a text without an operator is read
/// as a caret (compatible-release) requirement; acceptance depends on the
/// text alone.
#[verifier::external_body]
fn parse_req(text: &str) -> (r: Option<semver::VersionReq>)
    ensures
        r is Some <==> semver_req_valid(text@),
{
    semver::VersionReq::parse(text).ok()
}

/// A requested version range, kept as its normalised text together with
/// the requirement semver read from that text.
pub struct VersionConstraint {
    text: String,
    req: semver::VersionReq,
}

/// Relies on semver::VersionReq::matches; the requirement is the one read
/// from `c`'s text, so the answer depends on that text and the version.
#[verifier::external_body]
fn req_matches(c: &VersionConstraint, v: &SemVersion) -> (r: bool)
    ensures
        r == semver_req_admits(c@, v@),
{
    c.req.matches(v.semver())
}

impl View for VersionConstraint {
    type V = Seq<char>;

    closed spec fn view(&self) -> Seq<char> {
        self.text@
    }
}

/// Removes one leading `v`, then one trailing `.x` or `.*`.
pub fn normalize_request(s: &str) -> (r: String)
    ensures
        r@ == normalized(s@),
{
    let n = s.unicode_len();
    let mut from: usize = 0;
    if n >= 1 && s.get_char(0) == 'v' {
        from = 1;
    }
    let t = s.substring_char(from, n);
    let m = t.unicode_len();
    let mut to = m;
    if m >= 2 && t.get_char(m - 2) == '.' {
        let last = t.get_char(m - 1);
        if last == 'x' || last == '*' {
            to = m - 2;
        }
    }
    let r = t.substring_char(0, to);
    String::from_str(r)
}

impl VersionConstraint {
    /// Reads a requested version such as `v3.20.x` as a range over the
    /// normalised text.
    pub fn parse(requested: &str) -> (r: Result<VersionConstraint, ConfigError>)
        ensures
            r is Ok <==> semver_req_valid(normalized(requested@)),
            r matches Ok(c) ==> c@ == normalized(requested@),
            r matches Err(e) ==> (e matches ConfigError::BadConstraint(t) && t@ == requested@),
    {
        let text = normalize_request(requested);
        match parse_req(text.as_str()) {
            Some(req) => Ok(VersionConstraint { text, req }),
            None => Err(ConfigError::BadConstraint(String::from_str(requested))),
        }
    }

    /// The normalised requested range.
    pub fn text(&self) -> (r: &str)
        ensures
            r@ == self@,
    {
        self.text.as_str()
    }

    /// Whether `v` lies in the range.
    pub fn matches(&self, v: &SemVersion) -> (r: bool)
        ensures
            r == semver_req_admits(self@, v@),
    {
        req_matches(self, v)
    }
}

} // verus!
