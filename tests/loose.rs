use setup_protoc::loose::_normalize_version;
use setup_protoc::text::replace_text;

fn norm(s: &str) -> String {
    _normalize_version(s.to_string())
}

#[test]
fn loose_major_only() {
    assert_eq!(norm("2"), "2.0.0");
}

#[test]
fn loose_major_minor() {
    assert_eq!(norm("2.1"), "2.1.0");
}

#[test]
fn loose_minor_prerelease() {
    assert_eq!(norm("1.10beta1"), "1.10.0-beta1");
    assert_eq!(norm("1.10rc1"), "1.10.0-rc1");
    assert_eq!(norm("3.0preview2"), "3.0.0-preview2");
}

#[test]
fn loose_patch_prerelease() {
    assert_eq!(norm("1.8.5beta1"), "1.8.5-beta1");
    assert_eq!(norm("1.8.5rc1"), "1.8.5-rc1");
}

#[test]
fn loose_full_version_unchanged() {
    assert_eq!(norm("3.20.2"), "3.20.2");
    assert_eq!(norm("3.20.2.7"), "3.20.2.7");
}

#[test]
fn replace_is_left_to_right() {
    assert_eq!(replace_text("aaa", "aa", "b"), "ba");
    assert_eq!(replace_text("rcrc", "rc", "-rc"), "-rc-rc");
    assert_eq!(replace_text("", "rc", "x"), "");
}
