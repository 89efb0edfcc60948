//! Errors of record extraction.

use vstd::prelude::*;

verus! {

/// Why a raw record could not be turned into a typed record. Either
/// failure is local to the record: callers skip the record and go on.
#[derive(Debug, Clone, Copy, PartialEq, Eq, Structural)]
pub enum ExtractError {
    /// The raw text is not a record of the expected markup at all.
    Syntax,
    /// The text parsed, but holds no component of the expected kind.
    MissingComponent,
}

impl ExtractError {
    /// A short description of the failure.
    pub fn message(&self) -> (r: String)
        ensures
            *self is Syntax ==> r@ == "failed to parse record data"@,
            *self is MissingComponent ==> r@ == "no matching component found in record data"@,
    {
        match self {
            ExtractError::Syntax => "failed to parse record data".to_owned(),
            ExtractError::MissingComponent => "no matching component found in record data".to_owned(),
        }
    }
}

} // verus!
