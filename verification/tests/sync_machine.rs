use imagesync::EngineAction;
use imagesync::EngineEvent;
use imagesync::Error;
use imagesync::SyncMachine;
use imagesync::SyncOutcome;
use imagesync::SyncRequest;

fn request(image: Option<&str>) -> SyncRequest {
    SyncRequest {
        image: image.map(String::from),
        username: String::from("user"),
        password: String::from("secret"),
    }
}

fn dest_repo() -> String {
    String::from("dierbei/csi_demo")
}

#[test]
fn missing_image_parameter_is_malformed() {
    let r = SyncMachine::start(request(None), dest_repo());
    assert_eq!(r.unwrap_err(), Error::MalformedReference);
}

#[test]
fn malformed_reference_issues_no_action() {
    let r = SyncMachine::start(request(Some("a:b:c")), dest_repo());
    assert_eq!(r.unwrap_err(), Error::MalformedReference);
}

#[test]
fn full_success_run() {
    let (mut m, first) = SyncMachine::start(request(Some("alpine:3.18")), dest_repo()).unwrap();
    match first {
        EngineAction::PullImage { image } => assert_eq!(image, "alpine:3.18"),
        _ => panic!("expected a pull first"),
    }
    match m.step(EngineEvent::Succeeded) {
        SyncOutcome::Continue(EngineAction::TagImage { source, repository, tag }) => {
            assert_eq!(source, "alpine:3.18");
            assert_eq!(repository, "dierbei/csi_demo");
            assert_eq!(tag, "alpine_3.18");
        }
        _ => panic!("expected tagging after the pull"),
    }
    match m.step(EngineEvent::Succeeded) {
        SyncOutcome::Continue(EngineAction::PushImage { repository, tag, username, password }) => {
            assert_eq!(repository, "dierbei/csi_demo");
            assert_eq!(tag, "alpine_3.18");
            assert_eq!(username, "user");
            assert_eq!(password, "secret");
        }
        _ => panic!("expected the push after tagging"),
    }
    match m.step(EngineEvent::Succeeded) {
        SyncOutcome::Continue(EngineAction::RemoveImage { image }) => {
            assert_eq!(image, "alpine:3.18");
        }
        _ => panic!("expected removal of the source copy after the push"),
    }
    match m.step(EngineEvent::Succeeded) {
        SyncOutcome::Continue(EngineAction::RemoveImage { image }) => {
            assert_eq!(image, "dierbei/csi_demo:alpine_3.18");
        }
        _ => panic!("expected removal of the destination copy"),
    }
    match m.step(EngineEvent::Succeeded) {
        SyncOutcome::Finished(res) => {
            assert_eq!(res.source_image, "alpine:3.18");
            assert_eq!(res.dest_image, "alpine_3.18");
        }
        _ => panic!("expected the pipeline to finish"),
    }
}

#[test]
fn digest_run_pulls_raw_and_removes_flattened() {
    let (mut m, first) =
        SyncMachine::start(request(Some("repo@sha256:abcd")), dest_repo()).unwrap();
    match first {
        EngineAction::PullImage { image } => assert_eq!(image, "repo@sha256:abcd"),
        _ => panic!("expected a pull first"),
    }
    match m.step(EngineEvent::Succeeded) {
        SyncOutcome::Continue(EngineAction::TagImage { source, tag, .. }) => {
            assert_eq!(source, "repo@sha256:abcd");
            assert_eq!(tag, "repo_sha256_abcd");
        }
        _ => panic!("expected tagging after the pull"),
    }
    let _push = m.step(EngineEvent::Succeeded);
    match m.step(EngineEvent::Succeeded) {
        SyncOutcome::Continue(EngineAction::RemoveImage { image }) => {
            assert_eq!(image, "repo_sha256_abcd");
        }
        _ => panic!("expected removal of the flattened source identifier"),
    }
}

#[test]
fn tag_failure_is_not_fatal() {
    let (mut m, _pull) = SyncMachine::start(request(Some("repo:tag")), dest_repo()).unwrap();
    let _tag = m.step(EngineEvent::Succeeded);
    match m.step(EngineEvent::Failed) {
        SyncOutcome::Continue(EngineAction::PushImage { .. }) => {}
        _ => panic!("a tag failure must not abort the pipeline"),
    }
}

#[test]
fn pull_and_push_outcomes_are_not_distinguished() {
    let (mut m, _pull) = SyncMachine::start(request(Some("repo:tag")), dest_repo()).unwrap();
    match m.step(EngineEvent::Failed) {
        SyncOutcome::Continue(EngineAction::TagImage { .. }) => {}
        _ => panic!("a pull stream end always advances to tagging"),
    }
    let _tag = m.step(EngineEvent::Succeeded);
    match m.step(EngineEvent::Failed) {
        SyncOutcome::Continue(EngineAction::RemoveImage { .. }) => {}
        _ => panic!("a push stream end always advances to cleanup"),
    }
}

#[test]
fn source_cleanup_failure_aborts() {
    let (mut m, _pull) = SyncMachine::start(request(Some("repo:tag")), dest_repo()).unwrap();
    let _tag = m.step(EngineEvent::Succeeded);
    let _push = m.step(EngineEvent::Succeeded);
    let _remove_source = m.step(EngineEvent::Succeeded);
    match m.step(EngineEvent::Failed) {
        SyncOutcome::Aborted(e) => assert_eq!(e, Error::CleanupFailed),
        _ => panic!("a failed source removal must abort"),
    }
}

#[test]
fn destination_cleanup_failure_aborts() {
    let (mut m, _pull) = SyncMachine::start(request(Some("repo:tag")), dest_repo()).unwrap();
    let _tag = m.step(EngineEvent::Succeeded);
    let _push = m.step(EngineEvent::Succeeded);
    let _remove_source = m.step(EngineEvent::Succeeded);
    let _remove_dest = m.step(EngineEvent::Succeeded);
    match m.step(EngineEvent::Failed) {
        SyncOutcome::Aborted(e) => assert_eq!(e, Error::CleanupFailed),
        _ => panic!("a failed destination removal must abort"),
    }
}
