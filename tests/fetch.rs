use setup_protoc::catalog::ReleaseTag;
use setup_protoc::fetch::CatalogFetch;

fn tag(name: &str) -> ReleaseTag {
    ReleaseTag { tag_name: name.to_string(), prerelease: false }
}

fn names(tags: &[ReleaseTag]) -> Vec<String> {
    tags.iter().map(|t| t.tag_name.clone()).collect()
}

#[test]
fn fetch_stops_at_first_empty_page() {
    let mut answers = vec![
        vec![tag("v1.0.0"), tag("v1.1.0")],
        vec![tag("v2.0.0")],
        vec![],
        vec![tag("v9.9.9")],
    ]
    .into_iter();
    let mut fetch = CatalogFetch::new();
    let mut requested = Vec::new();
    while let Some(page) = fetch.next_request() {
        requested.push(page);
        fetch.on_page(answers.next());
    }
    assert_eq!(requested, vec![1, 2, 3]);
    assert!(fetch.is_done());
    assert_eq!(names(&fetch.into_tags()), vec!["v1.0.0", "v1.1.0", "v2.0.0"]);
}

#[test]
fn malformed_page_ends_listing() {
    let mut fetch = CatalogFetch::new();
    assert_eq!(fetch.next_request(), Some(1));
    fetch.on_page(Some(vec![tag("v1.0.0")]));
    assert_eq!(fetch.next_request(), Some(2));
    fetch.on_page(None);
    assert_eq!(fetch.next_request(), None);
    assert_eq!(names(&fetch.into_tags()), vec!["v1.0.0"]);
}

#[test]
fn empty_first_page_gives_empty_listing() {
    let mut fetch = CatalogFetch::new();
    fetch.on_page(Some(Vec::new()));
    assert_eq!(fetch.next_request(), None);
    assert!(fetch.into_tags().is_empty());
}
