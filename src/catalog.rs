use vstd::prelude::*;
use vstd::string::*;
use crate::version::{semver_parse, SemVersion, VersionModel};

verus! {

/// One entry of the release listing: its tag and its pre-release flag.
pub struct ReleaseTag {
    pub tag_name: String,
    pub prerelease: bool,
}

pub open spec fn is_ascii_digit(c: char) -> bool {
    '0' <= c && c <= '9'
}

/// A word character (ASCII letter, digit or `_`) or a dot.
pub open spec fn is_word_or_dot(c: char) -> bool {
    ||| is_ascii_digit(c)
    ||| ('a' <= c && c <= 'z')
    ||| ('A' <= c && c <= 'Z')
    ||| c == '_'
    ||| c == '.'
}

/// The index at which the run of digits that starts at `i` ends.
pub open spec fn digit_run_end(s: Seq<char>, i: int) -> int
    recommends
        0 <= i <= s.len(),
    decreases s.len() - i,
{
    if 0 <= i < s.len() && is_ascii_digit(s[i]) {
        digit_run_end(s, i + 1)
    } else {
        i
    }
}

/// A version-shaped tag: `v`, one or more digits, a dot, then a word
/// character or a dot.
pub open spec fn is_version_tag(s: Seq<char>) -> bool {
    let k = digit_run_end(s, 1);
    &&& s.len() >= 1
    &&& s[0] == 'v'
    &&& k > 1
    &&& k + 1 < s.len()
    &&& s[k] == '.'
    &&& is_word_or_dot(s[k + 1])
}

/// The version a listing entry contributes to the catalog, if any: a
/// version-shaped tag, admitted by the pre-release policy, whose text after
/// the `v` semver accepts.
pub open spec fn tag_version(t: ReleaseTag, include_pre_releases: bool) -> Option<VersionModel> {
    if is_version_tag(t.tag_name@) && (include_pre_releases || !t.prerelease) {
        semver_parse(t.tag_name@.drop_first())
    } else {
        None
    }
}

/// The catalog that a listing yields, in listing order.
pub open spec fn catalog_of(tags: Seq<ReleaseTag>, include_pre_releases: bool) -> Seq<VersionModel>
    decreases tags.len(),
{
    if tags.len() == 0 {
        Seq::empty()
    } else {
        let rest = catalog_of(tags.drop_last(), include_pre_releases);
        match tag_version(tags.last(), include_pre_releases) {
            Some(v) => rest.push(v),
            None => rest,
        }
    }
}

proof fn lemma_digit_run_step(s: Seq<char>, i: int)
    requires
        0 <= i < s.len(),
        is_ascii_digit(s[i]),
    ensures
        digit_run_end(s, i) == digit_run_end(s, i + 1),
{
}

/// Whether `tag` is version-shaped.
pub fn is_version_tag_text(tag: &str) -> (r: bool)
    ensures
        r == is_version_tag(tag@),
{
    let n = tag.unicode_len();
    if n == 0 || tag.get_char(0) != 'v' {
        return false;
    }
    let mut k: usize = 1;
    while k < n
        invariant
            n == tag@.len(),
            1 <= k <= n,
            digit_run_end(tag@, 1) == digit_run_end(tag@, k as int),
        ensures
            1 <= k <= n,
            digit_run_end(tag@, 1) == k,
        decreases n - k,
    {
        let c = tag.get_char(k);
        if !('0' <= c && c <= '9') {
            break;
        }
        proof {
            lemma_digit_run_step(tag@, k as int);
        }
        k = k + 1;
    }
    if k == 1 || k >= n - 1 || tag.get_char(k) != '.' {
        return false;
    }
    let c = tag.get_char(k + 1);
    ('0' <= c && c <= '9') || ('a' <= c && c <= 'z') || ('A' <= c && c <= 'Z') || c == '_' || c
        == '.'
}

/// Turns listing entries into the catalog: drops entries whose tag is not
/// version-shaped, pre-releases unless they are asked for, and tags whose
/// text after the `v` is not a strict semantic version.
pub fn normalize_tags(tags: &Vec<ReleaseTag>, include_pre_releases: bool) -> (r: Vec<SemVersion>)
    ensures
        r@.map_values(|v: SemVersion| v@) == catalog_of(tags@, include_pre_releases),
{
    let mut out: Vec<SemVersion> = Vec::new();
    let n = tags.len();
    let mut i: usize = 0;
    while i < n
        invariant
            n == tags@.len(),
            i <= n,
            out@.map_values(|v: SemVersion| v@) == catalog_of(tags@.subrange(0, i as int), include_pre_releases),
        decreases n - i,
    {
        let t = &tags[i];
        let ghost prefix = tags@.subrange(0, i as int + 1);
        assert(prefix.drop_last() =~= tags@.subrange(0, i as int));
        assert(prefix.last() == *t);
        if is_version_tag_text(t.tag_name.as_str()) && (include_pre_releases || !t.prerelease) {
            let len = t.tag_name.as_str().unicode_len();
            let bare = t.tag_name.as_str().substring_char(1, len);
            match SemVersion::parse(bare) {
                Some(v) => {
                    out.push(v);
                    assert(out@.map_values(|v: SemVersion| v@) =~= catalog_of(prefix, include_pre_releases));
                },
                None => {},
            }
        }
        i = i + 1;
    }
    assert(tags@.subrange(0, n as int) =~= tags@);
    out
}

/// The text after the `v` of an entry that passes the shape and
/// pre-release checks but that semver refuses; such entries are dropped.
pub open spec fn tag_rejected(t: ReleaseTag, include_pre_releases: bool) -> Option<Seq<char>> {
    if is_version_tag(t.tag_name@) && (include_pre_releases || !t.prerelease) && semver_parse(
        t.tag_name@.drop_first(),
    ) is None {
        Some(t.tag_name@.drop_first())
    } else {
        None
    }
}

/// The texts of all such entries, in listing order.
pub open spec fn rejected_of(tags: Seq<ReleaseTag>, include_pre_releases: bool) -> Seq<Seq<char>>
    decreases tags.len(),
{
    if tags.len() == 0 {
        Seq::empty()
    } else {
        let rest = rejected_of(tags.drop_last(), include_pre_releases);
        match tag_rejected(tags.last(), include_pre_releases) {
            Some(v) => rest.push(v),
            None => rest,
        }
    }
}

/// The version texts that `normalize_tags` drops because semver refuses
/// them, for a diagnostic.
pub fn rejected_tags(tags: &Vec<ReleaseTag>, include_pre_releases: bool) -> (r: Vec<String>)
    ensures
        r@.map_values(|s: String| s@) == rejected_of(tags@, include_pre_releases),
{
    let mut out: Vec<String> = Vec::new();
    let n = tags.len();
    let mut i: usize = 0;
    while i < n
        invariant
            n == tags@.len(),
            i <= n,
            out@.map_values(|s: String| s@) == rejected_of(tags@.subrange(0, i as int), include_pre_releases),
        decreases n - i,
    {
        let t = &tags[i];
        let ghost prefix = tags@.subrange(0, i as int + 1);
        assert(prefix.drop_last() =~= tags@.subrange(0, i as int));
        assert(prefix.last() == *t);
        if is_version_tag_text(t.tag_name.as_str()) && (include_pre_releases || !t.prerelease) {
            let len = t.tag_name.as_str().unicode_len();
            let bare = t.tag_name.as_str().substring_char(1, len);
            if SemVersion::parse(bare).is_none() {
                out.push(String::from_str(bare));
                assert(out@.map_values(|s: String| s@) =~= rejected_of(prefix, include_pre_releases));
            }
        }
        i = i + 1;
    }
    assert(tags@.subrange(0, n as int) =~= tags@);
    out
}

proof fn lemma_catalog_concat(a: Seq<ReleaseTag>, b: Seq<ReleaseTag>, include_pre_releases: bool)
    ensures
        catalog_of(a + b, include_pre_releases) == catalog_of(a, include_pre_releases) + catalog_of(
            b,
            include_pre_releases,
        ),
    decreases b.len(),
{
    if b.len() == 0 {
        assert(a + b =~= a);
        assert(catalog_of(a, include_pre_releases) + catalog_of(b, include_pre_releases)
            =~= catalog_of(a, include_pre_releases));
    } else {
        assert((a + b).drop_last() =~= a + b.drop_last());
        assert((a + b).last() == b.last());
        lemma_catalog_concat(a, b.drop_last(), include_pre_releases);
        match tag_version(b.last(), include_pre_releases) {
            Some(v) => {
                assert(catalog_of(a, include_pre_releases) + catalog_of(b, include_pre_releases)
                    =~= (catalog_of(a, include_pre_releases) + catalog_of(b.drop_last(), include_pre_releases)).push(v));
            },
            None => {},
        }
    }
}

/// An entry whose tag is not version-shaped, wherever it stands in the
/// listing, leaves the catalog exactly as it is without it.
pub proof fn lemma_malformed_tag_ignored(
    before: Seq<ReleaseTag>,
    bad: ReleaseTag,
    after: Seq<ReleaseTag>,
    include_pre_releases: bool,
)
    requires
        !is_version_tag(bad.tag_name@),
    ensures
        catalog_of(before.push(bad) + after, include_pre_releases) == catalog_of(
            before + after,
            include_pre_releases,
        ),
{
    lemma_catalog_concat(before.push(bad), after, include_pre_releases);
    lemma_catalog_concat(before, after, include_pre_releases);
    lemma_catalog_concat(before, seq![bad], include_pre_releases);
    assert(before + seq![bad] =~= before.push(bad));
    assert(seq![bad].drop_last() =~= Seq::<ReleaseTag>::empty());
    assert(seq![bad].last() == bad);
    assert(tag_version(bad, include_pre_releases) is None);
    assert(catalog_of(Seq::<ReleaseTag>::empty(), include_pre_releases) =~= Seq::<VersionModel>::empty());
    assert(catalog_of(seq![bad], include_pre_releases) =~= Seq::<VersionModel>::empty());
    assert(catalog_of(before, include_pre_releases) + Seq::<VersionModel>::empty() =~= catalog_of(before, include_pre_releases));
}

} // verus!
