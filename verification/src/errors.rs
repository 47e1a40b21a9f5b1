use vstd::prelude::*;

verus! {

/// The closed set of failures the service can report to its boundary.
#[derive(Debug, Clone, Copy, PartialEq, Eq, Structural)]
pub enum Error {
    /// The `image` parameter was missing, or the reference split into more
    /// than two colon-delimited segments without carrying a digest.
    MalformedReference,
    /// Removing the local copy of the source or destination image failed.
    CleanupFailed,
    /// The container engine rejected an operation outright.
    EngineOperationFailed,
}

/// The status and body the request boundary sends for a rejection: a known
/// error of this service is reported as `401` with `Image is null`, anything
/// else as `404` with `Route not found`.
pub fn boundary_reply(known: Option<Error>) -> (r: (u16, String))
    ensures
        known is Some ==> r.0 == 401 && r.1@ == "Image is null"@,
        known is None ==> r.0 == 404 && r.1@ == "Route not found"@,
{
    match known {
        Option::Some(_) => (401, String::from_str("Image is null")),
        Option::None => (404, String::from_str("Route not found")),
    }
}

} // verus!
