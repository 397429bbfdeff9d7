use setup_protoc::catalog::{is_version_tag_text, normalize_tags, rejected_tags, ReleaseTag};
use setup_protoc::constraint::{normalize_request, VersionConstraint};
use setup_protoc::resolve::{compute_version, resolve};
use setup_protoc::version::SemVersion;

fn tag(name: &str, prerelease: bool) -> ReleaseTag {
    ReleaseTag { tag_name: name.to_string(), prerelease }
}

fn listing() -> Vec<ReleaseTag> {
    vec![
        tag("v3.20.0", false),
        tag("v3.20.2", false),
        tag("v3.20.2-rc1", true),
        tag("v3.21.0", false),
    ]
}

fn version(text: &str) -> SemVersion {
    SemVersion::parse(text).expect("valid version")
}

fn texts(vs: &[SemVersion]) -> Vec<String> {
    vs.iter().map(|v| v.to_text()).collect()
}

#[test]
fn normalize_strips_prefix_and_wildcard() {
    assert_eq!(normalize_request("v3.20.x"), "3.20");
    assert_eq!(normalize_request("v3.20.*"), "3.20");
    assert_eq!(normalize_request("3.20"), "3.20");
    assert_eq!(normalize_request("v21.6"), "21.6");
    assert_eq!(normalize_request(""), "");
}

#[test]
fn normalize_is_idempotent_on_normalized_text() {
    for s in ["v3.20.x", "3.20.2", "v21.x", "^1.2", "x"] {
        let once = normalize_request(s);
        assert_eq!(normalize_request(&once), once);
    }
}

#[test]
fn version_shaped_tags() {
    assert!(is_version_tag_text("v3.20.2"));
    assert!(is_version_tag_text("v21.6"));
    assert!(is_version_tag_text("v3.20.2-rc1"));
    assert!(!is_version_tag_text("3.20.2"));
    assert!(!is_version_tag_text("v.1"));
    assert!(!is_version_tag_text("v3."));
    assert!(!is_version_tag_text("not-a-version"));
    assert!(!is_version_tag_text(""));
}

#[test]
fn normalize_tags_applies_prerelease_policy() {
    let without = normalize_tags(&listing(), false);
    assert_eq!(texts(&without), vec!["3.20.0", "3.20.2", "3.21.0"]);
    let with = normalize_tags(&listing(), true);
    assert_eq!(texts(&with), vec!["3.20.0", "3.20.2", "3.20.2-rc1", "3.21.0"]);
}

#[test]
fn normalize_tags_drops_unparsable_tags() {
    let tags = vec![tag("v21.6", false), tag("v3.20.2", false), tag("v3.20.2.1", false)];
    let got = normalize_tags(&tags, true);
    assert_eq!(texts(&got), vec!["3.20.2"]);
    assert_eq!(rejected_tags(&tags, true), vec!["21.6", "3.20.2.1"]);
    assert!(rejected_tags(&listing(), true).is_empty());
}

#[test]
fn caret_range_excludes_prerelease_when_asked() {
    // "v3.20.x" normalises to the caret range ^3.20, which admits 3.21.0.
    let c = VersionConstraint::parse("v3.20.x").unwrap();
    assert_eq!(c.text(), "3.20");
    let got = compute_version(&c, false, &listing()).unwrap();
    assert_eq!(got.to_text(), "3.21.0");
    let narrower: Vec<ReleaseTag> = listing().into_iter().take(3).collect();
    let got = compute_version(&c, false, &narrower).unwrap();
    assert_eq!(got.to_text(), "3.20.2");
}

#[test]
fn release_outranks_its_prerelease() {
    let c = VersionConstraint::parse(">=3.20.2-rc1").unwrap();
    let tags = vec![tag("v3.20.2-rc1", true), tag("v3.20.2", false), tag("v3.20.0", false)];
    let got = compute_version(&c, true, &tags).unwrap();
    assert_eq!(got.to_text(), "3.20.2");
    let rc = version("3.20.2-rc1");
    let release = version("3.20.2");
    assert!(rc.precedes(&release));
    assert!(!release.precedes(&rc));
}

#[test]
fn release_chosen_with_prereleases_included() {
    let c = VersionConstraint::parse("v3").unwrap();
    let got = compute_version(&c, true, &listing()).unwrap();
    assert_eq!(got.to_text(), "3.21.0");
    let tags: Vec<ReleaseTag> = listing().into_iter().take(3).collect();
    let got = compute_version(&c, true, &tags).unwrap();
    assert_eq!(got.to_text(), "3.20.2");
}

#[test]
fn malformed_tag_does_not_change_resolution() {
    let c = VersionConstraint::parse("v3.20.x").unwrap();
    let mut tags = listing();
    tags.insert(1, tag("not-a-version", false));
    let with_bad = compute_version(&c, false, &tags).unwrap();
    let without = compute_version(&c, false, &listing()).unwrap();
    assert_eq!(with_bad.to_text(), without.to_text());
    assert_eq!(normalize_tags(&tags, true).len(), 4);
}

#[test]
fn empty_catalog_is_no_match() {
    let c = VersionConstraint::parse("3.20").unwrap();
    let err = resolve(&c, Vec::new()).unwrap_err();
    assert_eq!(err.constraint, "3.20");
    assert!(err.candidates.is_empty());
}

#[test]
fn no_match_lists_every_candidate() {
    let c = VersionConstraint::parse("v4.x").unwrap();
    let err = compute_version(&c, true, &listing()).unwrap_err();
    assert_eq!(err.constraint, "4");
    assert_eq!(texts(&err.candidates), vec!["3.20.0", "3.20.2", "3.20.2-rc1", "3.21.0"]);
}

#[test]
fn bad_constraint_is_refused() {
    assert!(VersionConstraint::parse("v>>1").is_err());
    assert!(VersionConstraint::parse("v1.2.3.4.5").is_err());
}

#[test]
fn semver_full_order_breaks_prerelease_ties() {
    let a = version("1.0.0-alpha.10");
    let b = version("1.0.0-alpha.9");
    assert!(a.outranks(&b));
    assert!(!b.outranks(&a));
    let c = VersionConstraint::parse(">=1.0.0-alpha.1").unwrap();
    let got = resolve(&c, vec![version("1.0.0-alpha.9"), version("1.0.0-alpha.10")]).unwrap();
    assert_eq!(got.to_text(), "1.0.0-alpha.10");
}

#[test]
fn constraint_matching_goes_through_semver() {
    let c = VersionConstraint::parse("3.20").unwrap();
    assert!(c.matches(&version("3.20.5")));
    assert!(c.matches(&version("3.99.0")));
    assert!(!c.matches(&version("4.0.0")));
    assert!(!c.matches(&version("3.20.5-rc1")));
}

#[test]
fn parse_reads_all_parts() {
    let v = version("10.0.123-rc.1+build5");
    assert_eq!(v.major(), 10);
    assert_eq!(v.minor(), 0);
    assert_eq!(v.patch(), 123);
    assert_eq!(v.pre(), "rc.1");
    assert_eq!(v.build(), "build5");
    assert_eq!(v.to_text(), "10.0.123-rc.1+build5");
    assert!(v.is_prerelease());
    assert!(SemVersion::parse("3.20").is_none());
    assert!(SemVersion::parse("v3.20.2").is_none());
}
