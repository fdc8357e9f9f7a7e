use vstd::prelude::*;

verus! {

/// The one failure this layer reports: a native query returned its failure
/// indicator. No partial result accompanies it.
#[derive(Clone, Copy, Debug, PartialEq, Eq, Structural)]
pub enum Error {
    /// Carries the platform's error code, captured right after the failed call.
    OsCallFailed(i32),
}

impl Error {
    /// The platform error code this failure carries.
    pub closed spec fn spec_code(self) -> int {
        match self {
            Error::OsCallFailed(code) => code as int,
        }
    }

    pub fn code(&self) -> (r: i32)
        ensures
            r as int == self.spec_code(),
    {
        match self {
            Error::OsCallFailed(code) => *code,
        }
    }
}

} // verus!
