use vstd::prelude::*;

verus! {

use crate::errors::Error;

/// The key of the fixed age filter the prune request carries.
pub open spec fn prune_filter_key() -> Seq<char> {
    seq!['u', 'n', 't', 'i', 'l']
}

/// The value of the fixed age filter: images unused for over one minute.
pub open spec fn prune_filter_age() -> Seq<char> {
    seq!['1', 'm']
}

/// The engine's prune summary, passed through to the caller verbatim.
#[derive(Debug, Clone)]
pub struct PruneSummary {
    /// Image tags the engine untagged.
    pub untagged: Vec<String>,
    /// Image identifiers the engine deleted.
    pub deleted: Vec<String>,
    /// Bytes of space reclaimed.
    pub space_reclaimed: i64,
}

/// Spec-level mirror of `PruneSummary`.
pub struct PruneSummaryView {
    pub untagged: Seq<Seq<char>>,
    pub deleted: Seq<Seq<char>>,
    pub space_reclaimed: int,
}

impl View for PruneSummary {
    type V = PruneSummaryView;

    open spec fn view(&self) -> PruneSummaryView {
        PruneSummaryView {
            untagged: self.untagged@.map_values(|s: String| s@),
            deleted: self.deleted@.map_values(|s: String| s@),
            space_reclaimed: self.space_reclaimed as int,
        }
    }
}

/// The single filter a prune request carries: `until`, one minute.
pub fn prune_filter() -> (r: (String, String))
    ensures
        r.0@ == prune_filter_key(),
        r.1@ == prune_filter_age(),
{
    let key = String::from_str("until");
    let age = String::from_str("1m");
    proof {
        reveal_strlit("until");
        reveal_strlit("1m");
        assert(key@ =~= prune_filter_key());
        assert(age@ =~= prune_filter_age());
    }
    (key, age)
}

/// How the handler reports a prune call: every engine success passes through
/// as `Ok` verbatim — the empty summary included — and an engine failure is
/// reported as `EngineOperationFailed`.
pub open spec fn prune_outcome_spec(outcome: Option<PruneSummaryView>) -> Result<
    PruneSummaryView,
    Error,
> {
    match outcome {
        Option::Some(summary) => Ok(summary),
        Option::None => Err(Error::EngineOperationFailed),
    }
}

/// Map what the engine reported for a prune call (`None`: the call itself
/// errored) to the handler's result.  The behavior is exactly
/// `prune_outcome_spec`.
pub fn interpret_prune(outcome: Option<PruneSummary>) -> (r: Result<PruneSummary, Error>)
    ensures
        ({
            let m = prune_outcome_spec(
                match outcome {
                    Option::Some(s) => Option::Some(s@),
                    Option::None => Option::None,
                },
            );
            match r {
                Ok(summary) => m is Ok && summary@ == m->Ok_0,
                Err(e) => m is Err && e == m->Err_0,
            }
        }),
{
    match outcome {
        Option::Some(summary) => Ok(summary),
        Option::None => Err(Error::EngineOperationFailed),
    }
}

/// Idempotence of prune, as far as the handler decides it: the handler turns
/// no engine success into an error, whatever the summary holds.  In
/// particular a second prune whose engine call succeeds with nothing left to
/// prune — the empty summary — is still a success, passed through verbatim.
pub proof fn lemma_prune_idempotent(first: PruneSummaryView, second: PruneSummaryView)
    ensures
        prune_outcome_spec(Option::Some(first)) is Ok,
        prune_outcome_spec(Option::Some(second)) is Ok,
        (prune_outcome_spec(Option::Some(second)))->Ok_0 == second,
        prune_outcome_spec(
            Option::Some(
                PruneSummaryView {
                    untagged: Seq::<Seq<char>>::empty(),
                    deleted: Seq::<Seq<char>>::empty(),
                    space_reclaimed: 0,
                },
            ),
        ) is Ok,
{
}

} // verus!
