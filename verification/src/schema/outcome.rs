//! What a check comes to.

use vstd::prelude::*;

verus! {

/// The outcome of a check: it passed, or it failed with one message.
#[derive(Debug)]
pub enum ValidationOutcome {
    Pass,
    Fail(String),
}

impl View for ValidationOutcome {
    /// The message of a failure; nothing for a pass.
    type V = Option<Seq<char>>;

    open spec fn view(&self) -> Option<Seq<char>> {
        match self {
            ValidationOutcome::Pass => None,
            ValidationOutcome::Fail(message) => Some(message@),
        }
    }
}

impl ValidationOutcome {
    /// Whether the check passed.
    pub fn is_pass(&self) -> (r: bool)
        ensures
            r == (self@ is None),
    {
        matches!(self, ValidationOutcome::Pass)
    }

    /// The message of a failure.
    pub fn message(&self) -> (r: Option<&String>)
        ensures
            match r {
                Some(m) => self@ == Some(m@),
                None => self@ is None,
            },
    {
        match self {
            ValidationOutcome::Pass => None,
            ValidationOutcome::Fail(message) => Some(message),
        }
    }

    /// The outcome as a result: `Ok(true)` for a pass, the message as the
    /// error of a failure.
    pub fn into_result(self) -> (r: Result<bool, String>)
        ensures
            match r {
                Ok(b) => b && self@ is None,
                Err(m) => self@ == Some(m@),
            },
    {
        match self {
            ValidationOutcome::Pass => Ok(true),
            ValidationOutcome::Fail(message) => Err(message),
        }
    }
}

} // verus!
