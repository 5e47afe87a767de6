//! Final states of a turn.

use crate::domain::error::{AgentError, AgentErrorView};
use vstd::prelude::*;

verus! {

/// How a turn ended.
#[derive(Debug, PartialEq, Eq)]
pub enum TurnOutcome {
    /// The turn completed.
    Completed,
    /// The turn was cancelled.
    Cancelled,
    /// The turn failed.
    Failed(AgentError),
    /// The background task of the turn panicked.
    Panicked,
}

/// Model of [`TurnOutcome`].
#[verifier::ext_equal]
pub enum TurnOutcomeView {
    Completed,
    Cancelled,
    Failed(AgentErrorView),
    Panicked,
}

impl DeepView for TurnOutcome {
    type V = TurnOutcomeView;

    open spec fn deep_view(&self) -> TurnOutcomeView {
        match self {
            TurnOutcome::Completed => TurnOutcomeView::Completed,
            TurnOutcome::Cancelled => TurnOutcomeView::Cancelled,
            TurnOutcome::Failed(error) => TurnOutcomeView::Failed(error.deep_view()),
            TurnOutcome::Panicked => TurnOutcomeView::Panicked,
        }
    }
}

} // verus!
