use pullbox::repository::Repository;

#[test]
fn bare_reference_gets_default_namespace_and_latest_tag() {
    let r = Repository::new("busybox");
    assert_eq!(r.name, "library/busybox");
    assert_eq!(r.tag, "latest");
}

#[test]
fn qualified_reference_keeps_name_and_tag_verbatim() {
    let r = Repository::new("ns/name:tag");
    assert_eq!(r.name, "ns/name");
    assert_eq!(r.tag, "tag");
}

#[test]
fn bare_name_with_explicit_tag() {
    let r = Repository::new("busybox:1.36");
    assert_eq!(r.name, "library/busybox");
    assert_eq!(r.tag, "1.36");
}

#[test]
fn namespaced_name_without_tag_defaults_to_latest() {
    let r = Repository::new("me/app");
    assert_eq!(r.name, "me/app");
    assert_eq!(r.tag, "latest");
}

#[test]
fn splits_only_at_the_first_colon() {
    let r = Repository::new("a/b:1:2");
    assert_eq!(r.name, "a/b");
    assert_eq!(r.tag, "1:2");
}

#[test]
fn empty_reference_is_accepted() {
    let r = Repository::new("");
    assert_eq!(r.name, "library/");
    assert_eq!(r.tag, "latest");
}

#[test]
fn parse_repo_name_prefixes_bare_names() {
    assert_eq!(Repository::parse_repo_name("alpine"), "library/alpine");
    assert_eq!(Repository::parse_repo_name("my/alpine"), "my/alpine");
}

#[test]
fn an_empty_namespace_segment_gains_the_default_namespace() {
    assert_eq!(Repository::parse_repo_name("/app"), "library/app");
    let r = Repository::new("/app:v1");
    assert_eq!(r.name, "library/app");
    assert_eq!(r.tag, "v1");
}
