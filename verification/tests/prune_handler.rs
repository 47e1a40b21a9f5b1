use imagesync::Error;
use imagesync::PruneSummary;
use imagesync::prune::interpret_prune;
use imagesync::prune::prune_filter;

fn summary(untagged: &[&str], deleted: &[&str], space: i64) -> PruneSummary {
    PruneSummary {
        untagged: untagged.iter().map(|s| String::from(*s)).collect(),
        deleted: deleted.iter().map(|s| String::from(*s)).collect(),
        space_reclaimed: space,
    }
}

#[test]
fn filter_is_until_one_minute() {
    let (key, age) = prune_filter();
    assert_eq!(key, "until");
    assert_eq!(age, "1m");
}

#[test]
fn engine_success_passes_through() {
    let r = interpret_prune(Some(summary(&["repo:old"], &["sha256:dead"], 1024))).unwrap();
    assert_eq!(r.untagged, vec!["repo:old".to_string()]);
    assert_eq!(r.deleted, vec!["sha256:dead".to_string()]);
    assert_eq!(r.space_reclaimed, 1024);
}

#[test]
fn empty_summary_is_a_success() {
    let r = interpret_prune(Some(summary(&[], &[], 0))).unwrap();
    assert!(r.untagged.is_empty());
    assert!(r.deleted.is_empty());
    assert_eq!(r.space_reclaimed, 0);
}

#[test]
fn second_prune_after_success_still_succeeds() {
    let first = interpret_prune(Some(summary(&["repo:old"], &["sha256:dead"], 1024)));
    assert!(first.is_ok());
    let second = interpret_prune(Some(summary(&[], &[], 0)));
    assert!(second.is_ok());
}

#[test]
fn engine_failure_is_reported() {
    assert_eq!(interpret_prune(None).unwrap_err(), Error::EngineOperationFailed);
}
