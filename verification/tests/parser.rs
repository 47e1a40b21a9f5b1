use imagesync::Error;
use imagesync::RefSelector;
use imagesync::reference::parse;

#[test]
fn round_trip_repo_tag() {
    let img = parse("repo:tag").unwrap();
    assert_eq!(img.joined_form(), "repo:tag");
    assert_eq!(img.destination_tag, "repo_tag");
    assert_eq!(img.pull_form(), "repo:tag");
}

#[test]
fn parsed_fields_repo_tag() {
    let img = parse("repo:tag").unwrap();
    assert_eq!(img.repository, "repo");
    match img.selector {
        RefSelector::ByTag { tag } => assert_eq!(tag, "tag"),
        RefSelector::ByDigest { .. } => panic!("expected a tag selector"),
    }
}

#[test]
fn implicit_latest_tag() {
    let img = parse("repo").unwrap();
    assert_eq!(img.joined_form(), "repo:latest");
    assert_eq!(img.destination_tag, "repo_latest");
    match img.selector {
        RefSelector::ByTag { ref tag } => assert_eq!(tag, "latest"),
        RefSelector::ByDigest { .. } => panic!("expected a tag selector"),
    }
}

#[test]
fn digest_reference_is_flattened() {
    let img = parse("repo@sha256:abcd").unwrap();
    assert_eq!(img.joined_form(), "repo_sha256_abcd");
    assert_eq!(img.destination_tag, "repo_sha256_abcd");
    assert_eq!(img.pull_form(), "repo@sha256:abcd");
}

#[test]
fn parsed_fields_digest() {
    let img = parse("repo@sha256:abcd").unwrap();
    assert_eq!(img.repository, "repo");
    match img.selector {
        RefSelector::ByDigest { digest } => assert_eq!(digest, "sha256:abcd"),
        RefSelector::ByTag { .. } => panic!("expected a digest selector"),
    }
}

#[test]
fn digest_with_slashes_is_flattened() {
    let img = parse("registry.io/library/alpine@sha256:abcd").unwrap();
    assert_eq!(img.destination_tag, "registry.io_library_alpine_sha256_abcd");
    assert_eq!(img.joined_form(), "registry.io_library_alpine_sha256_abcd");
    assert_eq!(img.pull_form(), "registry.io/library/alpine@sha256:abcd");
}

#[test]
fn slash_survives_in_tagged_reference() {
    let img = parse("library/alpine:3.18").unwrap();
    assert_eq!(img.joined_form(), "library/alpine:3.18");
    assert_eq!(img.destination_tag, "library/alpine_3.18");
}

#[test]
fn digest_marker_suppresses_colon_splitting() {
    let img = parse("a:b:c@d").unwrap();
    assert_eq!(img.joined_form(), "a_b_c_d");
    assert_eq!(img.destination_tag, "a_b_c_d");
    assert_eq!(img.pull_form(), "a:b:c@d");
    assert_eq!(img.repository, "a:b:c");
}

#[test]
fn repeated_digest_marker_splits_at_the_first() {
    let img = parse("a@b@c").unwrap();
    assert_eq!(img.repository, "a");
    match img.selector {
        RefSelector::ByDigest { digest } => assert_eq!(digest, "b@c"),
        RefSelector::ByTag { .. } => panic!("expected a digest selector"),
    }
    assert_eq!(img.destination_tag, "a_b_c");
}

#[test]
fn three_segments_are_rejected() {
    assert_eq!(parse("a:b:c").unwrap_err(), Error::MalformedReference);
}

#[test]
fn many_segments_are_rejected() {
    assert_eq!(parse("a:b:c:d:e").unwrap_err(), Error::MalformedReference);
}

#[test]
fn empty_string_receives_implicit_tag() {
    let img = parse("").unwrap();
    assert_eq!(img.joined_form(), ":latest");
    assert_eq!(img.destination_tag, "_latest");
}
