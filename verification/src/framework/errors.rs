//! The errors of the framework.
use vstd::prelude::*;

verus! {

/// What can go wrong while a solver is configured or run.
///
/// Errors raised by user callbacks travel through the framework unchanged, so the
/// callbacks use this type as well.
#[derive(Debug)]
pub enum ArgminError {
    /// A tuning parameter was set outside of its bounds.
    InvalidParameter { text: String },
    /// A capability that a solver needs is not offered.
    NotImplemented { text: String },
    /// An input that must be given before use is missing.
    NotInitialized { text: String },
    /// A condition on the inputs does not hold.
    ConditionViolated { text: String },
    /// No checkpoint was found.
    CheckpointNotFound { text: String },
    /// A case analysis inside an algorithm was left without a case: a defect, not a
    /// condition to recover from.
    PotentialBug { text: String },
    /// A user callback (cost, gradient, hessian, jacobian, operator) failed.
    ObjectiveError { text: String },
    /// An observer or the checkpoint store failed.
    ExecutionAbort { text: String },
}

impl ArgminError {
    /// The message that the error carries.
    pub open spec fn text_spec(&self) -> Seq<char> {
        match self {
            ArgminError::InvalidParameter { text } => text@,
            ArgminError::NotImplemented { text } => text@,
            ArgminError::NotInitialized { text } => text@,
            ArgminError::ConditionViolated { text } => text@,
            ArgminError::CheckpointNotFound { text } => text@,
            ArgminError::PotentialBug { text } => text@,
            ArgminError::ObjectiveError { text } => text@,
            ArgminError::ExecutionAbort { text } => text@,
        }
    }

    /// An `InvalidParameter` error with the given message.
    pub fn invalid_parameter(text: &str) -> (e: ArgminError)
        ensures
            e is InvalidParameter,
            e.text_spec() == text@,
    {
        ArgminError::InvalidParameter { text: text.to_owned() }
    }

    /// A `NotInitialized` error with the given message.
    pub fn not_initialized(text: &str) -> (e: ArgminError)
        ensures
            e is NotInitialized,
            e.text_spec() == text@,
    {
        ArgminError::NotInitialized { text: text.to_owned() }
    }

    /// A `PotentialBug` error with the given message.
    pub fn potential_bug(text: &str) -> (e: ArgminError)
        ensures
            e is PotentialBug,
            e.text_spec() == text@,
    {
        ArgminError::PotentialBug { text: text.to_owned() }
    }

    /// The message that the error carries.
    pub fn text(&self) -> (t: &str)
        ensures
            t@ == self.text_spec(),
    {
        match self {
            ArgminError::InvalidParameter { text } => text.as_str(),
            ArgminError::NotImplemented { text } => text.as_str(),
            ArgminError::NotInitialized { text } => text.as_str(),
            ArgminError::ConditionViolated { text } => text.as_str(),
            ArgminError::CheckpointNotFound { text } => text.as_str(),
            ArgminError::PotentialBug { text } => text.as_str(),
            ArgminError::ObjectiveError { text } => text.as_str(),
            ArgminError::ExecutionAbort { text } => text.as_str(),
        }
    }
}

} // verus!
