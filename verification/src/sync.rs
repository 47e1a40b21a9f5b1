use vstd::prelude::*;

verus! {

use crate::errors::Error;
use crate::reference::parse;
use crate::reference::parse_spec;

// --- Request and result ---

/// Input to the orchestrator: the raw `image` query parameter (absent when
/// the request carried none) and the destination registry credentials.
#[derive(Debug, Clone)]
pub struct SyncRequest {
    pub image: Option<String>,
    pub username: String,
    pub password: String,
}

/// What a completed sync echoes back: the canonical source identifier and
/// the tag the image now carries at the destination repository.
#[derive(Debug, Clone)]
pub struct SyncImageRes {
    pub source_image: String,
    pub dest_image: String,
}

/// Spec-level mirror of `SyncImageRes`.
pub struct SyncResView {
    pub source_image: Seq<char>,
    pub dest_image: Seq<char>,
}

impl View for SyncImageRes {
    type V = SyncResView;

    open spec fn view(&self) -> SyncResView {
        SyncResView { source_image: self.source_image@, dest_image: self.dest_image@ }
    }
}

// --- Engine actions and events ---

/// One operation the container engine is asked to perform.  The orchestrator
/// only decides; the caller carries each action out and reports the outcome.
#[derive(Debug, Clone)]
pub enum EngineAction {
    /// Pull `image` from its origin registry.
    PullImage { image: String },
    /// Create the local tag `repository:tag` pointing at `source`.
    TagImage { source: String, repository: String, tag: String },
    /// Push `repository:tag` to its registry with the given credentials.
    PushImage { repository: String, tag: String, username: String, password: String },
    /// Force-remove the local image named `image`.
    RemoveImage { image: String },
}

/// Spec-level mirror of `EngineAction`.
pub enum ActionView {
    PullImage { image: Seq<char> },
    TagImage { source: Seq<char>, repository: Seq<char>, tag: Seq<char> },
    PushImage { repository: Seq<char>, tag: Seq<char>, username: Seq<char>, password: Seq<char> },
    RemoveImage { image: Seq<char> },
}

impl View for EngineAction {
    type V = ActionView;

    open spec fn view(&self) -> ActionView {
        match self {
            EngineAction::PullImage { image } => ActionView::PullImage { image: image@ },
            EngineAction::TagImage { source, repository, tag } => ActionView::TagImage {
                source: source@,
                repository: repository@,
                tag: tag@,
            },
            EngineAction::PushImage { repository, tag, username, password } => {
                ActionView::PushImage {
                    repository: repository@,
                    tag: tag@,
                    username: username@,
                    password: password@,
                }
            },
            EngineAction::RemoveImage { image } => ActionView::RemoveImage { image: image@ },
        }
    }
}

/// The outcome of one engine operation, as the caller observed it.
#[derive(Debug, Clone, Copy, PartialEq, Eq, Structural)]
pub enum EngineEvent {
    Succeeded,
    Failed,
}

/// What the orchestrator hands back after each step.
#[derive(Debug, Clone)]
pub enum SyncOutcome {
    /// The pipeline goes on: perform this action and report its outcome.
    Continue(EngineAction),
    /// The pipeline is done; echo this result to the caller.
    Finished(SyncImageRes),
    /// The pipeline failed; report this error to the caller.
    Aborted(Error),
}

/// Spec-level mirror of `SyncOutcome`.
pub enum OutcomeView {
    Continue(ActionView),
    Finished(SyncResView),
    Aborted(Error),
}

impl View for SyncOutcome {
    type V = OutcomeView;

    open spec fn view(&self) -> OutcomeView {
        match self {
            SyncOutcome::Continue(a) => OutcomeView::Continue(a@),
            SyncOutcome::Finished(r) => OutcomeView::Finished(r@),
            SyncOutcome::Aborted(e) => OutcomeView::Aborted(*e),
        }
    }
}

// --- The machine ---

/// Where one sync stands in the strict pull, tag, push, remove-source,
/// remove-destination order.
#[derive(Debug, Clone, Copy, PartialEq, Eq, Structural)]
pub enum Phase {
    Pulling,
    Tagging,
    Pushing,
    RemovingSource,
    RemovingDest,
    Complete,
    Cancelled,
}

/// Spec-level mirror of `SyncMachine`.
pub struct MachineView {
    pub destination_repository: Seq<char>,
    pub joined: Seq<char>,
    pub destination_tag: Seq<char>,
    pub pull_ref: Seq<char>,
    pub username: Seq<char>,
    pub password: Seq<char>,
    pub phase: Phase,
}

impl MachineView {
    /// A machine that still owes the caller an action.
    pub open spec fn running(self) -> bool {
        self.phase != Phase::Complete && self.phase != Phase::Cancelled
    }
}

/// The sync orchestrator for one request: it has parsed the reference and
/// walks the engine through the pipeline one action at a time.
#[derive(Debug, Clone)]
pub struct SyncMachine {
    pub destination_repository: String,
    pub joined: String,
    pub destination_tag: String,
    pub pull_ref: String,
    pub username: String,
    pub password: String,
    pub phase: Phase,
}

impl View for SyncMachine {
    type V = MachineView;

    open spec fn view(&self) -> MachineView {
        MachineView {
            destination_repository: self.destination_repository@,
            joined: self.joined@,
            destination_tag: self.destination_tag@,
            pull_ref: self.pull_ref@,
            username: self.username@,
            password: self.password@,
            phase: self.phase,
        }
    }
}

/// What starting a sync yields: a missing `image` parameter or a malformed
/// reference is refused before any engine action is issued; otherwise the
/// machine is in the pulling phase and the first action pulls the reference.
pub open spec fn start_spec(
    image: Option<Seq<char>>,
    username: Seq<char>,
    password: Seq<char>,
    destination_repository: Seq<char>,
) -> Result<(MachineView, ActionView), Error> {
    match image {
        Option::None => Err(Error::MalformedReference),
        Option::Some(raw) => match parse_spec(raw) {
            Err(e) => Err(e),
            Ok(v) => Ok(
                (
                    MachineView {
                        destination_repository: destination_repository,
                        joined: v.joined(),
                        destination_tag: v.destination_tag,
                        pull_ref: v.pull_reference(),
                        username: username,
                        password: password,
                        phase: Phase::Pulling,
                    },
                    ActionView::PullImage { image: v.pull_reference() },
                ),
            ),
        },
    }
}

/// The transition table.  Pull, tag and push outcomes are not distinguished
/// from success (a tag failure is deliberately non-fatal); a failed removal
/// of either local copy aborts the pipeline with `CleanupFailed`.
pub open spec fn step_spec(m: MachineView, event: EngineEvent) -> (MachineView, OutcomeView) {
    match m.phase {
        Phase::Pulling => (
            MachineView { phase: Phase::Tagging, ..m },
            OutcomeView::Continue(
                ActionView::TagImage {
                    source: m.pull_ref,
                    repository: m.destination_repository,
                    tag: m.destination_tag,
                },
            ),
        ),
        Phase::Tagging => (
            MachineView { phase: Phase::Pushing, ..m },
            OutcomeView::Continue(
                ActionView::PushImage {
                    repository: m.destination_repository,
                    tag: m.destination_tag,
                    username: m.username,
                    password: m.password,
                },
            ),
        ),
        Phase::Pushing => (
            MachineView { phase: Phase::RemovingSource, ..m },
            OutcomeView::Continue(ActionView::RemoveImage { image: m.joined }),
        ),
        Phase::RemovingSource => if event == EngineEvent::Succeeded {
            (
                MachineView { phase: Phase::RemovingDest, ..m },
                OutcomeView::Continue(
                    ActionView::RemoveImage {
                        image: m.destination_repository + seq![':'] + m.destination_tag,
                    },
                ),
            )
        } else {
            (
                MachineView { phase: Phase::Cancelled, ..m },
                OutcomeView::Aborted(Error::CleanupFailed),
            )
        },
        Phase::RemovingDest => if event == EngineEvent::Succeeded {
            (
                MachineView { phase: Phase::Complete, ..m },
                OutcomeView::Finished(
                    SyncResView { source_image: m.joined, dest_image: m.destination_tag },
                ),
            )
        } else {
            (
                MachineView { phase: Phase::Cancelled, ..m },
                OutcomeView::Aborted(Error::CleanupFailed),
            )
        },
        Phase::Complete => (m, OutcomeView::Finished(
            SyncResView { source_image: m.joined, dest_image: m.destination_tag },
        )),
        Phase::Cancelled => (m, OutcomeView::Aborted(Error::CleanupFailed)),
    }
}

impl SyncMachine {
    /// Begin one sync: parse the reference and, on success, hand back the
    /// machine together with the pull action.  No action at all is issued
    /// for a missing or malformed reference.
    pub fn start(request: SyncRequest, destination_repository: String) -> (r: Result<
        (SyncMachine, EngineAction),
        Error,
    >)
        ensures
            ({
                let m = start_spec(
                    match request.image {
                        Option::Some(s) => Option::Some(s@),
                        Option::None => Option::None,
                    },
                    request.username@,
                    request.password@,
                    destination_repository@,
                );
                match r {
                    Ok(p) => m is Ok && (p.0@, p.1@) == m->Ok_0,
                    Err(e) => m is Err && e == m->Err_0,
                }
            }),
    {
        let raw = match request.image {
            Option::Some(s) => s,
            Option::None => {
                return Err(Error::MalformedReference);
            },
        };
        let parsed = match parse(raw.as_str()) {
            Ok(img) => img,
            Err(e) => {
                return Err(e);
            },
        };
        let joined = parsed.joined_form();
        let pull_ref = parsed.pull_form();
        let machine = SyncMachine {
            destination_repository,
            joined,
            destination_tag: parsed.destination_tag,
            pull_ref: pull_ref.clone(),
            username: request.username,
            password: request.password,
            phase: Phase::Pulling,
        };
        Ok((machine, EngineAction::PullImage { image: pull_ref }))
    }

    /// Advance the pipeline by one step, given the outcome the engine
    /// reported for the previous action.  The behavior is exactly
    /// `step_spec` applied to the machine's view.
    pub fn step(&mut self, event: EngineEvent) -> (r: SyncOutcome)
        requires
            old(self)@.running(),
        ensures
            final(self)@ == step_spec(old(self)@, event).0,
            r@ == step_spec(old(self)@, event).1,
    {
        match self.phase {
            Phase::Pulling => {
                self.phase = Phase::Tagging;
                SyncOutcome::Continue(
                    EngineAction::TagImage {
                        source: self.pull_ref.clone(),
                        repository: self.destination_repository.clone(),
                        tag: self.destination_tag.clone(),
                    },
                )
            },
            Phase::Tagging => {
                self.phase = Phase::Pushing;
                SyncOutcome::Continue(
                    EngineAction::PushImage {
                        repository: self.destination_repository.clone(),
                        tag: self.destination_tag.clone(),
                        username: self.username.clone(),
                        password: self.password.clone(),
                    },
                )
            },
            Phase::Pushing => {
                self.phase = Phase::RemovingSource;
                SyncOutcome::Continue(
                    EngineAction::RemoveImage { image: self.joined.clone() },
                )
            },
            Phase::RemovingSource => {
                if matches!(event, EngineEvent::Succeeded) {
                    self.phase = Phase::RemovingDest;
                    let image = self.destination_repository.clone().concat(":").concat(
                        self.destination_tag.as_str(),
                    );
                    proof {
                        reveal_strlit(":");
                        assert(":"@ =~= seq![':']);
                        assert(image@ =~= self.destination_repository@ + seq![':']
                            + self.destination_tag@);
                    }
                    SyncOutcome::Continue(EngineAction::RemoveImage { image })
                } else {
                    self.phase = Phase::Cancelled;
                    SyncOutcome::Aborted(Error::CleanupFailed)
                }
            },
            Phase::RemovingDest => {
                if matches!(event, EngineEvent::Succeeded) {
                    self.phase = Phase::Complete;
                    SyncOutcome::Finished(
                        SyncImageRes {
                            source_image: self.joined.clone(),
                            dest_image: self.destination_tag.clone(),
                        },
                    )
                } else {
                    self.phase = Phase::Cancelled;
                    SyncOutcome::Aborted(Error::CleanupFailed)
                }
            },
            Phase::Complete => {
                SyncOutcome::Finished(
                    SyncImageRes {
                        source_image: self.joined.clone(),
                        dest_image: self.destination_tag.clone(),
                    },
                )
            },
            Phase::Cancelled => SyncOutcome::Aborted(Error::CleanupFailed),
        }
    }
}

// --- Laws ---

/// A run in which every engine operation succeeds walks the pipeline in the
/// strict order tag, push, remove source, remove destination, and finishes
/// with the canonical source identifier and the destination tag.
pub proof fn lemma_ordered_success_run(m: MachineView)
    requires
        m.phase == Phase::Pulling,
    ensures
        ({
            let (m1, o1) = step_spec(m, EngineEvent::Succeeded);
            let (m2, o2) = step_spec(m1, EngineEvent::Succeeded);
            let (m3, o3) = step_spec(m2, EngineEvent::Succeeded);
            let (m4, o4) = step_spec(m3, EngineEvent::Succeeded);
            &&& o1 == OutcomeView::Continue(
                ActionView::TagImage {
                    source: m.pull_ref,
                    repository: m.destination_repository,
                    tag: m.destination_tag,
                },
            )
            &&& o2 == OutcomeView::Continue(
                ActionView::PushImage {
                    repository: m.destination_repository,
                    tag: m.destination_tag,
                    username: m.username,
                    password: m.password,
                },
            )
            &&& o3 == OutcomeView::Continue(ActionView::RemoveImage { image: m.joined })
            &&& o4 == OutcomeView::Continue(
                ActionView::RemoveImage {
                    image: m.destination_repository + seq![':'] + m.destination_tag,
                },
            )
            &&& step_spec(m4, EngineEvent::Succeeded).1 == OutcomeView::Finished(
                SyncResView { source_image: m.joined, dest_image: m.destination_tag },
            )
            &&& step_spec(m4, EngineEvent::Succeeded).0.phase == Phase::Complete
        }),
{
}

/// End-to-end, as far as the orchestrator decides it: when the reference
/// parses and every engine operation succeeds, the pipeline first pulls the
/// reference's pull identifier, later removes both the canonical source
/// identifier and the destination copy `repository:tag`, and reports exactly
/// those two identifiers back.
pub proof fn lemma_end_to_end_success(
    raw: Seq<char>,
    username: Seq<char>,
    password: Seq<char>,
    destination_repository: Seq<char>,
)
    requires
        parse_spec(raw) is Ok,
    ensures
        ({
            let v = (parse_spec(raw))->Ok_0;
            let s = start_spec(Option::Some(raw), username, password, destination_repository);
            &&& s is Ok
            &&& s->Ok_0.1 == (ActionView::PullImage { image: v.pull_reference() })
            &&& {
                let m = s->Ok_0.0;
                let (m1, o1) = step_spec(m, EngineEvent::Succeeded);
                let (m2, o2) = step_spec(m1, EngineEvent::Succeeded);
                let (m3, o3) = step_spec(m2, EngineEvent::Succeeded);
                let (m4, o4) = step_spec(m3, EngineEvent::Succeeded);
                let (m5, o5) = step_spec(m4, EngineEvent::Succeeded);
                &&& o3 == OutcomeView::Continue(ActionView::RemoveImage { image: v.joined() })
                &&& o4 == OutcomeView::Continue(
                    ActionView::RemoveImage {
                        image: destination_repository + seq![':'] + v.destination_tag,
                    },
                )
                &&& o5 == OutcomeView::Finished(
                    SyncResView { source_image: v.joined(), dest_image: v.destination_tag },
                )
                &&& m5.phase == Phase::Complete
            }
        }),
{
}

/// A missing `image` parameter, or a reference that parses to an error, is
/// refused with that error before any engine action is issued.
pub proof fn lemma_rejected_before_any_action(
    image: Option<Seq<char>>,
    username: Seq<char>,
    password: Seq<char>,
    destination_repository: Seq<char>,
)
    requires
        image is None || parse_spec(image->0) is Err,
    ensures
        start_spec(image, username, password, destination_repository) is Err,
{
}

} // verus!
