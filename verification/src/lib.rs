//! Image-relay core: reference parsing, the pull/tag/push/cleanup pipeline
//! expressed as a state machine, and the prune decision logic.

pub mod errors;
pub mod prune;
pub mod reference;
pub mod sync;

pub use errors::Error;
pub use prune::PruneSummary;
pub use reference::ImageReference;
pub use reference::RefSelector;
pub use sync::EngineAction;
pub use sync::EngineEvent;
pub use sync::Phase;
pub use sync::SyncImageRes;
pub use sync::SyncMachine;
pub use sync::SyncOutcome;
pub use sync::SyncRequest;
