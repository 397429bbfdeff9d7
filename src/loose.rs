use vstd::prelude::*;
use vstd::string::*;
use crate::text::{contains_text, dot_index, find_dot, occurs_in, replace_all, replace_text};

verus! {

/// Whether a version component carries a `beta`, `rc` or `preview` marker.
pub open spec fn has_pre_word(p: Seq<char>) -> bool {
    occurs_in(p, "beta"@) || occurs_in(p, "rc"@) || occurs_in(p, "preview"@)
}

/// A component with its markers rewritten: `beta` becomes `<lead>beta`, and
/// likewise `rc` and `preview`, in that order.
pub open spec fn expand_pre_words(p: Seq<char>, lead: Seq<char>) -> Seq<char> {
    replace_all(
        replace_all(replace_all(p, "beta"@, lead + "beta"@), "rc"@, lead + "rc"@),
        "preview"@,
        lead + "preview"@,
    )
}

/// A loosely written version brought to `major.minor.patch[-pre]` form:
/// `2` gives `2.0.0`, `2.1` gives `2.1.0`, `1.10beta1` gives `1.10.0-beta1`
/// and `1.8.5rc1` gives `1.8.5-rc1`; anything else is left as it is.
pub open spec fn loose_normalized(v: Seq<char>) -> Seq<char> {
    let d1 = dot_index(v, 0);
    let d2 = dot_index(v, d1 + 1);
    let d3 = dot_index(v, d2 + 1);
    let minor = v.subrange(d1 + 1, d2);
    let patch = v.subrange(d2 + 1, d3);
    if d1 == v.len() {
        v + ".0.0"@
    } else if has_pre_word(minor) {
        v.subrange(0, d1 + 1) + expand_pre_words(minor, ".0-"@) + v.subrange(d2, v.len() as int)
    } else if d2 == v.len() {
        v + ".0"@
    } else if has_pre_word(patch) {
        v.subrange(0, d2 + 1) + expand_pre_words(patch, "-"@) + v.subrange(d3, v.len() as int)
    } else {
        v
    }
}

fn has_pre_word_text(p: &str) -> (r: bool)
    ensures
        r == has_pre_word(p@),
{
    contains_text(p, "beta") || contains_text(p, "rc") || contains_text(p, "preview")
}

fn expand_with(p: &str, beta: &str, rc: &str, preview: &str) -> (r: String)
    ensures
        r@ == replace_all(replace_all(replace_all(p@, "beta"@, beta@), "rc"@, rc@), "preview"@, preview@),
{
    proof {
        reveal_strlit("beta");
        reveal_strlit("rc");
        reveal_strlit("preview");
    }
    let a = replace_text(p, "beta", beta);
    let b = replace_text(a.as_str(), "rc", rc);
    replace_text(b.as_str(), "preview", preview)
}

/// Brings a loosely written version to `major.minor.patch[-pre]` form; see
/// `loose_normalized`.
pub fn _normalize_version(version: String) -> (r: String)
    ensures
        r@ == loose_normalized(version@),
{
    proof {
        reveal_strlit(".0-");
        reveal_strlit("-");
        reveal_strlit(".0-beta");
        reveal_strlit(".0-rc");
        reveal_strlit(".0-preview");
        reveal_strlit("-beta");
        reveal_strlit("-rc");
        reveal_strlit("-preview");
        reveal_strlit("beta");
        reveal_strlit("rc");
        reveal_strlit("preview");
        assert(".0-beta"@ =~= ".0-"@ + "beta"@);
        assert(".0-rc"@ =~= ".0-"@ + "rc"@);
        assert(".0-preview"@ =~= ".0-"@ + "preview"@);
        assert("-beta"@ =~= "-"@ + "beta"@);
        assert("-rc"@ =~= "-"@ + "rc"@);
        assert("-preview"@ =~= "-"@ + "preview"@);
    }
    let s = version.as_str();
    let n = s.unicode_len();
    let d1 = find_dot(s, 0);
    if d1 == n {
        let mut r = version.clone();
        r.append(".0.0");
        return r;
    }
    let d2 = find_dot(s, d1 + 1);
    let minor = s.substring_char(d1 + 1, d2);
    if has_pre_word_text(minor) {
        let mut r = String::from_str(s.substring_char(0, d1 + 1));
        let expanded = expand_with(minor, ".0-beta", ".0-rc", ".0-preview");
        r.append(expanded.as_str());
        r.append(s.substring_char(d2, n));
        return r;
    }
    if d2 == n {
        let mut r = version.clone();
        r.append(".0");
        return r;
    }
    let d3 = find_dot(s, d2 + 1);
    let patch = s.substring_char(d2 + 1, d3);
    if has_pre_word_text(patch) {
        let mut r = String::from_str(s.substring_char(0, d2 + 1));
        let expanded = expand_with(patch, "-beta", "-rc", "-preview");
        r.append(expanded.as_str());
        r.append(s.substring_char(d3, n));
        return r;
    }
    version
}

} // verus!
