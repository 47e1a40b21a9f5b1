use imagesync::errors::boundary_reply;
use imagesync::Error;

#[test]
fn known_errors_reply_unauthorized() {
    for e in [
        Error::MalformedReference,
        Error::CleanupFailed,
        Error::EngineOperationFailed,
    ] {
        let (status, body) = boundary_reply(Some(e));
        assert_eq!(status, 401);
        assert_eq!(body, "Image is null");
    }
}

#[test]
fn unknown_rejections_reply_not_found() {
    let (status, body) = boundary_reply(None);
    assert_eq!(status, 404);
    assert_eq!(body, "Route not found");
}
