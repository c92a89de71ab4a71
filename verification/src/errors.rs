//! The error taxonomy: open-time failures, access-time failures and
//! data-corruption failures, plus the plain-value form of a host engine error.

use vstd::prelude::*;

verus! {

/// A host engine error, reduced to the two plain values the logic reads:
/// the error's name (such as `"ConstraintError"`) and its message.
#[derive(Debug)]
pub struct EngineError {
    pub name: String,
    pub message: String,
}

impl EngineError {
    /// Builds an engine error from its name and message.
    pub fn new(name: String, message: String) -> (e: EngineError)
        ensures
            e.name@ == name@,
            e.message@ == message@,
    {
        EngineError { name, message }
    }
}

/// Error when opening the database.
#[derive(Debug)]
pub enum OpenError {
    /// No environment context (no window) is available.
    NoWindow,
    /// The environment exists but the storage capability is absent or disabled.
    IndexedDbNotSupported(EngineError),
    /// The open request itself produced an error.
    OpenError(EngineError),
}

/// Error accessing the database.
#[derive(Debug)]
pub enum AccessError {
    /// A stored value exists but is not of the expected form.
    Corrupted(CorruptedError),
    /// The engine reported a failure while committing a transaction.
    TransactionError(EngineError),
}

/// The ways a stored value can be found corrupted.
#[derive(Debug)]
pub enum CorruptedError {
    /// The stored value does not decode as text.
    UnexpectedValueTy,
}

} // verus!
