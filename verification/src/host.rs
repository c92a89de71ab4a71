//! The decisions taken on host engine outcomes: the open-time capability
//! checks, the classification of operation failures by error name, the
//! interpretation of a transaction's terminal notification, the schema to
//! create at each stored version, and the decoding of a read result. The
//! unverified host glue feeds engine outcomes into these functions as plain
//! values and acts on what they return.

use vstd::prelude::*;

use crate::errors::{AccessError, CorruptedError, EngineError, OpenError};
use crate::store::Value;
use crate::transaction::CollectionId;

verus! {

/// The engine error name that signals a duplicate insert.
pub open spec fn constraint_error_name() -> Seq<char> {
    "ConstraintError"@
}

/// The engine error name that signals a key that cannot be looked up in
/// the attempted form.
pub open spec fn data_error_name() -> Seq<char> {
    "DataError"@
}

/// Whether an engine error reports a uniqueness-constraint violation.
pub fn is_constraint_error(failure: &EngineError) -> (r: bool)
    ensures
        r == (failure.name@ == constraint_error_name()),
{
    let expected: String = "ConstraintError".to_owned();
    failure.name == expected
}

/// Whether an engine error reports a key that cannot be looked up in the
/// attempted form; such a read counts as "not found", not as a failure.
pub fn is_data_error(failure: &EngineError) -> (r: bool)
    ensures
        r == (failure.name@ == data_error_name()),
{
    let expected: String = "DataError".to_owned();
    failure.name == expected
}

/// The decision taken when an insert-if-absent operation fails: a
/// uniqueness-constraint violation means the entry is already present and
/// the insert succeeds idempotently; any other failure surfaces as a
/// transaction error.
pub fn classify_add_failure(failure: EngineError) -> (r: Result<(), AccessError>)
    ensures
        failure.name@ == constraint_error_name() ==> r is Ok,
        failure.name@ != constraint_error_name() ==> (r matches Err(
            AccessError::TransactionError(e),
        ) && e == failure),
{
    if is_constraint_error(&failure) {
        Ok(())
    } else {
        Err(AccessError::TransactionError(failure))
    }
}

/// The open-time capability check: no environment context means the store
/// cannot be opened at all, and a failed capability probe means the engine
/// is unsupported or disabled. A probe that reports the capability present
/// lets the open request proceed.
pub fn check_environment(has_window: bool, storage_probe: Result<bool, EngineError>) -> (r: Result<
    (),
    OpenError,
>)
    requires
        has_window ==> (storage_probe matches Ok(present) ==> present),
    ensures
        !has_window ==> r matches Err(OpenError::NoWindow),
        has_window ==> (storage_probe matches Err(e) ==> (r matches Err(
            OpenError::IndexedDbNotSupported(e2),
        ) && e2 == e)),
        has_window && storage_probe is Ok ==> r is Ok,
{
    if !has_window {
        return Err(OpenError::NoWindow);
    }
    match storage_probe {
        Ok(_present) => Ok(()),
        Err(e) => Err(OpenError::IndexedDbNotSupported(e)),
    }
}

/// The decision taken on a transaction's terminal notification: no terminal
/// error means the writes committed; a terminal error surfaces as a
/// transaction error carrying the engine's details.
pub fn transaction_outcome(terminal_error: Option<EngineError>) -> (r: Result<(), AccessError>)
    ensures
        terminal_error is None ==> r is Ok,
        terminal_error matches Some(e) ==> (r matches Err(AccessError::TransactionError(e2))
            && e2 == e),
{
    match terminal_error {
        None => Ok(()),
        Some(e) => Err(AccessError::TransactionError(e)),
    }
}

/// The decision taken on the result of a single-key read: no stored value
/// means the key is absent; a text value is returned; any other stored
/// value signals on-disk corruption.
pub fn interpret_get_value(stored: Option<Value>) -> (r: Result<Option<String>, AccessError>)
    ensures
        stored is None ==> (r matches Ok(v) && v is None),
        stored matches Some(Value::Text(t)) ==> (r matches Ok(v) && v matches Some(s) && s@
            == t@),
        stored matches Some(Value::Other) ==> (r matches Err(AccessError::Corrupted(
            CorruptedError::UnexpectedValueTy,
        ))),
{
    match stored {
        None => Ok(None),
        Some(Value::Text(s)) => Ok(Some(s)),
        Some(Value::Other) => Err(AccessError::Corrupted(CorruptedError::UnexpectedValueTy)),
    }
}

/// The persisted name of a collection.
pub open spec fn spec_collection_name(collection: CollectionId) -> Seq<char> {
    match collection {
        CollectionId::BlockHeaders => "block-headers"@,
        CollectionId::BestChain => "best-chain"@,
    }
}

/// The persisted name of a collection.
pub fn collection_name(collection: CollectionId) -> (r: &'static str)
    ensures
        r@ == spec_collection_name(collection),
{
    match collection {
        CollectionId::BlockHeaders => "block-headers",
        CollectionId::BestChain => "best-chain",
    }
}

/// The schema manager's decision: which collections to create when the
/// store's persisted version is behind. A fresh store (version 0) gets the
/// two collections; a store already at the current schema version gets
/// none.
pub fn collections_to_create(old_version: u32) -> (r: Vec<CollectionId>)
    ensures
        old_version == 0 ==> r@ == seq![CollectionId::BlockHeaders, CollectionId::BestChain],
        old_version >= 1 ==> r@ == Seq::<CollectionId>::empty(),
{
    let mut r: Vec<CollectionId> = Vec::new();
    if old_version == 0 {
        r.push(CollectionId::BlockHeaders);
        r.push(CollectionId::BestChain);
        proof {
            assert(r@ =~= seq![CollectionId::BlockHeaders, CollectionId::BestChain]);
        }
    } else {
        proof {
            assert(r@ =~= Seq::<CollectionId>::empty());
        }
    }
    r
}

} // verus!
