//! How a turn ended.
use vstd::prelude::*;

verus! {

/// Terminal result of one turn, whatever ran it.
#[derive(Debug, Clone, PartialEq)]
pub enum TurnOutcome {
    /// The turn ran to completion. `summary` is backend metadata, not
    /// user-visible content: agents publish their replies themselves.
    Completed { summary: String },
    Failed { reason: String },
    Canceled,
    /// Nobody can prove what happened. Callers must not blindly retry: the
    /// turn's effects may have happened.
    UnknownOutcome { reason: String },
}

/// What a [`TurnOutcome`] says.
pub enum Outcome {
    Completed(Seq<char>),
    Failed(Seq<char>),
    Canceled,
    Unknown(Seq<char>),
}

impl View for TurnOutcome {
    type V = Outcome;

    open spec fn view(&self) -> Outcome {
        match self {
            TurnOutcome::Completed { summary } => Outcome::Completed(summary@),
            TurnOutcome::Failed { reason } => Outcome::Failed(reason@),
            TurnOutcome::Canceled => Outcome::Canceled,
            TurnOutcome::UnknownOutcome { reason } => Outcome::Unknown(reason@),
        }
    }
}

/// The view of an optional outcome.
pub open spec fn opt_outcome(outcome: Option<TurnOutcome>) -> Option<Outcome> {
    match outcome {
        Some(outcome) => Some(outcome@),
        None => None,
    }
}

impl TurnOutcome {
    pub fn completed(summary: &str) -> (r: TurnOutcome)
        ensures
            r@ == Outcome::Completed(summary@),
    {
        TurnOutcome::Completed { summary: summary.to_owned() }
    }

    pub fn failed(reason: &str) -> (r: TurnOutcome)
        ensures
            r@ == Outcome::Failed(reason@),
    {
        TurnOutcome::Failed { reason: reason.to_owned() }
    }

    pub fn unknown(reason: &str) -> (r: TurnOutcome)
        ensures
            r@ == Outcome::Unknown(reason@),
    {
        TurnOutcome::UnknownOutcome { reason: reason.to_owned() }
    }
}

/// An outcome is seen as what it is, with its text.
pub proof fn outcomes_are_seen_as_they_are(outcome: TurnOutcome)
    ensures
        match outcome {
            TurnOutcome::Completed { summary } => outcome@ == Outcome::Completed(summary@),
            TurnOutcome::Failed { reason } => outcome@ == Outcome::Failed(reason@),
            TurnOutcome::Canceled => outcome@ == Outcome::Canceled,
            TurnOutcome::UnknownOutcome { reason } => outcome@ == Outcome::Unknown(reason@),
        },
        opt_outcome(Some(outcome)) == Some(outcome@),
        opt_outcome(None) is None,
{
}

} // verus!
