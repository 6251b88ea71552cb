use vstd::prelude::*;

verus! {

/// The abstract result of an operation, independent of any transport.
#[derive(Clone, Copy, Debug, PartialEq, Eq, Structural)]
pub enum Outcome {
    Success,
    Created,
    NoContent,
    /// Missing, invalid or insufficient identity. Never says which rule failed.
    Unauthorized,
    NotFound,
    Conflict,
    InternalError,
}

impl Outcome {
    /// Whether the outcome reports a success of some kind.
    pub open spec fn spec_is_success(self) -> bool {
        self == Outcome::Success || self == Outcome::Created || self == Outcome::NoContent
    }

    pub fn is_success(&self) -> (r: bool)
        ensures
            r == self.spec_is_success(),
    {
        match self {
            Outcome::Success | Outcome::Created | Outcome::NoContent => true,
            _ => false,
        }
    }
}

} // verus!
