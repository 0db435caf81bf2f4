//! Why a run has stopped.
use vstd::prelude::*;

verus! {

/// The reason for which a run has stopped, or `NotTerminated` while it goes on.
#[derive(Clone, Copy, Debug, PartialEq, Eq, Structural)]
pub enum TerminationReason {
    /// The run goes on.
    NotTerminated,
    /// The budget of iterations is used up.
    MaxItersReached,
    /// The budget of time is used up.
    MaxTimeReached,
    /// The best cost is at or below the target cost.
    TargetCostReached,
    /// The line search found a step length that meets its conditions.
    LineSearchConditionMet,
    /// The solver converged.
    Converged,
    /// The run was aborted.
    Aborted,
}

impl TerminationReason {
    /// Every reason but `NotTerminated` is terminal.
    pub open spec fn terminated_spec(self) -> bool {
        self != TerminationReason::NotTerminated
    }

    /// Whether the reason is terminal.
    #[verifier::when_used_as_spec(terminated_spec)]
    pub fn terminated(self) -> (t: bool)
        ensures
            t == self.terminated_spec(),
    {
        !matches!(self, TerminationReason::NotTerminated)
    }

    /// The reason in words.
    pub open spec fn text_spec(&self) -> Seq<char> {
        match self {
            TerminationReason::NotTerminated => "Not terminated"@,
            TerminationReason::MaxItersReached => "Maximum number of iterations reached"@,
            TerminationReason::MaxTimeReached => "Maximum time reached"@,
            TerminationReason::TargetCostReached => "Target cost value reached"@,
            TerminationReason::LineSearchConditionMet => "Line search condition met"@,
            TerminationReason::Converged => "Converged"@,
            TerminationReason::Aborted => "Optimization aborted"@,
        }
    }

    /// The reason in words.
    pub fn text(&self) -> (t: &'static str)
        ensures
            t@ == self.text_spec(),
    {
        match self {
            TerminationReason::NotTerminated => "Not terminated",
            TerminationReason::MaxItersReached => "Maximum number of iterations reached",
            TerminationReason::MaxTimeReached => "Maximum time reached",
            TerminationReason::TargetCostReached => "Target cost value reached",
            TerminationReason::LineSearchConditionMet => "Line search condition met",
            TerminationReason::Converged => "Converged",
            TerminationReason::Aborted => "Optimization aborted",
        }
    }
}

impl Default for TerminationReason {
    fn default() -> (r: Self)
        ensures
            r == TerminationReason::NotTerminated,
    {
        TerminationReason::NotTerminated
    }
}

} // verus!
