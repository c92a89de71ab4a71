use header_store::errors::{AccessError, EngineError, OpenError};
use header_store::host;
use header_store::signal::CompletionSignal;
use header_store::transaction::CollectionId;

fn engine_error(name: &str) -> EngineError {
    EngineError::new(name.to_string(), "details".to_string())
}

#[test]
fn no_window_refuses_to_open() {
    let outcome = host::check_environment(false, Ok(true));
    assert!(matches!(outcome, Err(OpenError::NoWindow)));
}

#[test]
fn failed_capability_probe_reports_unsupported() {
    let outcome = host::check_environment(true, Err(engine_error("SecurityError")));
    match outcome {
        Err(OpenError::IndexedDbNotSupported(e)) => {
            assert_eq!(e.name, "SecurityError".to_string());
        }
        other => panic!("expected IndexedDbNotSupported, got {:?}", other),
    }
}

#[test]
fn present_capability_lets_open_proceed() {
    assert!(host::check_environment(true, Ok(true)).is_ok());
}

#[test]
fn constraint_violation_is_idempotent_success() {
    assert!(host::is_constraint_error(&engine_error("ConstraintError")));
    assert!(!host::is_constraint_error(&engine_error("DataError")));
    assert!(host::classify_add_failure(engine_error("ConstraintError")).is_ok());
}

#[test]
fn other_add_failures_become_transaction_errors() {
    let outcome = host::classify_add_failure(engine_error("UnknownError"));
    match outcome {
        Err(AccessError::TransactionError(e)) => {
            assert_eq!(e.name, "UnknownError".to_string());
        }
        other => panic!("expected TransactionError, got {:?}", other),
    }
}

#[test]
fn data_error_reads_as_not_found() {
    assert!(host::is_data_error(&engine_error("DataError")));
    assert!(!host::is_data_error(&engine_error("ConstraintError")));
}

#[test]
fn terminal_notification_decides_the_transaction_result() {
    assert!(host::transaction_outcome(None).is_ok());
    let outcome = host::transaction_outcome(Some(engine_error("AbortError")));
    match outcome {
        Err(AccessError::TransactionError(e)) => {
            assert_eq!(e.name, "AbortError".to_string());
        }
        other => panic!("expected TransactionError, got {:?}", other),
    }
}

#[test]
fn completion_signal_resolves_exactly_once() {
    let mut signal = CompletionSignal::new();
    assert!(!signal.is_resolved());
    assert!(signal.notify());
    assert!(signal.is_resolved());
    // A second notification is absorbed.
    assert!(!signal.notify());
    assert!(signal.is_resolved());
}

#[test]
fn schema_manager_creates_collections_only_once() {
    assert_eq!(
        host::collections_to_create(0),
        vec![CollectionId::BlockHeaders, CollectionId::BestChain]
    );
    assert_eq!(host::collections_to_create(1), Vec::<CollectionId>::new());
    assert_eq!(host::collections_to_create(7), Vec::<CollectionId>::new());
}

#[test]
fn collection_names_are_the_persisted_ones() {
    assert_eq!(
        host::collection_name(CollectionId::BlockHeaders),
        "block-headers"
    );
    assert_eq!(host::collection_name(CollectionId::BestChain), "best-chain");
}

#[test]
fn engine_error_keeps_name_and_message() {
    let e = EngineError::new("AbortError".to_string(), "aborted".to_string());
    assert_eq!(e.name, "AbortError".to_string());
    assert_eq!(e.message, "aborted".to_string());
}
