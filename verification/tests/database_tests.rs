use header_store::database::{Database, StoreState};
use header_store::errors::{AccessError, CorruptedError, OpenError};
use header_store::store::{Key, Value};
use header_store::transaction::{CollectionId, TransactionMode};

fn open_fresh(name: &str) -> Database {
    let state = StoreState::fresh(name.to_string());
    Database::open(state).expect("opening a fresh store succeeds")
}

#[test]
fn fresh_open_creates_exactly_two_collections() {
    let db = open_fresh("chain-db");
    assert_eq!(db.count(CollectionId::BlockHeaders), 0);
    assert_eq!(db.count(CollectionId::BestChain), 0);

    let state = db.close();
    assert_eq!(state.version, 1);
    assert!(state.block_headers.is_some());
    assert!(state.best_chain.is_some());
}

#[test]
fn reopen_is_idempotent_and_preserves_contents() {
    let mut db = open_fresh("chain-db");
    let header: Vec<u8> = vec![1, 2, 3];
    let hash: Vec<u8> = vec![0xAA; 32];
    db.insert_header(&header, &hash, 42).unwrap();

    let state = db.close();
    assert_eq!(state.version, 1);
    let db2 = Database::open(state).expect("reopening succeeds");
    assert_eq!(db2.count(CollectionId::BlockHeaders), 1);
    assert_eq!(db2.count(CollectionId::BestChain), 1);
    let stored = db2
        .get(CollectionId::BlockHeaders, &Key::Text("aa".repeat(32)))
        .unwrap();
    assert_eq!(stored, Some("010203".to_string()));

    let state2 = db2.close();
    assert_eq!(state2.version, 1);
    assert!(state2.block_headers.is_some());
    assert!(state2.best_chain.is_some());
}

#[test]
fn insert_then_get_returns_hex_of_header() {
    let mut db = open_fresh("chain-db");
    let header: Vec<u8> = vec![0x01, 0x0F, 0xA0];
    let hash: Vec<u8> = vec![0xAA; 32];
    db.insert_header(&header, &hash, 42).unwrap();

    let key = Key::Text("aa".repeat(32));
    let stored = db.get(CollectionId::BlockHeaders, &key).unwrap();
    assert_eq!(stored, Some("010fa0".to_string()));
}

#[test]
fn double_insert_is_idempotent() {
    let mut db = open_fresh("chain-db");
    let header: Vec<u8> = vec![7, 8, 9, 10];
    let hash: Vec<u8> = vec![0x11; 32];

    assert!(db.insert_header(&header, &hash, 5).is_ok());
    assert!(db.insert_header(&header, &hash, 5).is_ok());

    assert_eq!(db.count(CollectionId::BlockHeaders), 1);
    assert_eq!(db.count(CollectionId::BestChain), 1);
    let stored = db
        .get(CollectionId::BlockHeaders, &Key::Text("11".repeat(32)))
        .unwrap();
    assert_eq!(stored, Some("0708090a".to_string()));
}

#[test]
fn insert_updates_best_chain_by_number() {
    let mut db = open_fresh("chain-db");
    let header: Vec<u8> = vec![1, 2, 3];
    let hash: Vec<u8> = vec![0xAA; 32];
    db.insert_header(&header, &hash, 42).unwrap();

    let stored = db.get(CollectionId::BestChain, &Key::Number(42)).unwrap();
    assert_eq!(stored, Some("aa".repeat(32)));
}

#[test]
fn same_number_overwrites_best_chain() {
    let mut db = open_fresh("chain-db");
    let header1: Vec<u8> = vec![1, 2, 3];
    let hash1: Vec<u8> = vec![0xAA; 32];
    let header2: Vec<u8> = vec![4, 5, 6];
    let hash2: Vec<u8> = vec![0xBB; 32];

    db.insert_header(&header1, &hash1, 42).unwrap();
    db.insert_header(&header2, &hash2, 42).unwrap();

    let stored = db.get(CollectionId::BestChain, &Key::Number(42)).unwrap();
    assert_eq!(stored, Some("bb".repeat(32)));
    assert_eq!(db.count(CollectionId::BlockHeaders), 2);
    assert_eq!(db.count(CollectionId::BestChain), 1);
}

#[test]
fn get_absent_key_returns_none() {
    let mut db = open_fresh("chain-db");
    assert_eq!(
        db.get(CollectionId::BlockHeaders, &Key::Text("aa".repeat(32)))
            .unwrap(),
        None
    );
    assert_eq!(
        db.get(CollectionId::BestChain, &Key::Number(7)).unwrap(),
        None
    );

    let header: Vec<u8> = vec![1];
    let hash: Vec<u8> = vec![0xCC; 32];
    db.insert_header(&header, &hash, 3).unwrap();
    // A key of the wrong form finds nothing rather than failing.
    assert_eq!(
        db.get(CollectionId::BestChain, &Key::Text("cc".repeat(32)))
            .unwrap(),
        None
    );
    assert_eq!(
        db.get(CollectionId::BlockHeaders, &Key::Number(3)).unwrap(),
        None
    );
}

#[test]
fn non_text_value_surfaces_corruption() {
    let mut db = open_fresh("chain-db");
    let scope = vec![CollectionId::BlockHeaders];
    let mut txn = db.begin(&scope, TransactionMode::ReadWrite);
    txn.put(
        CollectionId::BlockHeaders,
        Key::Text("damaged".to_string()),
        Value::Other,
    );
    db.commit(txn);

    let outcome = db.get(CollectionId::BlockHeaders, &Key::Text("damaged".to_string()));
    assert!(matches!(
        outcome,
        Err(AccessError::Corrupted(CorruptedError::UnexpectedValueTy))
    ));
}

#[test]
fn uncommitted_transaction_has_no_effect() {
    let mut db = open_fresh("chain-db");
    let scope = vec![CollectionId::BlockHeaders, CollectionId::BestChain];
    {
        let mut txn = db.begin(&scope, TransactionMode::ReadWrite);
        txn.put(
            CollectionId::BlockHeaders,
            Key::Text("pending".to_string()),
            Value::Text("ff".to_string()),
        );
        // The transaction is dropped without a commit: it aborts.
    }
    assert_eq!(db.count(CollectionId::BlockHeaders), 0);
    assert_eq!(
        db.get(CollectionId::BlockHeaders, &Key::Text("pending".to_string()))
            .unwrap(),
        None
    );
}

#[test]
fn duplicate_add_within_transaction_reports_constraint_error() {
    let db = open_fresh("chain-db");
    let scope = vec![CollectionId::BlockHeaders];
    let mut txn = db.begin(&scope, TransactionMode::ReadWrite);
    let first = txn.add(
        CollectionId::BlockHeaders,
        Key::Text("k".to_string()),
        Value::Text("v1".to_string()),
    );
    assert!(first.is_ok());
    let second = txn.add(
        CollectionId::BlockHeaders,
        Key::Text("k".to_string()),
        Value::Text("v2".to_string()),
    );
    let err = second.expect_err("the second add must hit the uniqueness constraint");
    assert_eq!(err.name, "ConstraintError".to_string());
}

#[test]
fn open_with_newer_stored_version_fails() {
    let state = StoreState {
        name: "chain-db".to_string(),
        version: 2,
        block_headers: Some(header_store::store::Collection::new()),
        best_chain: Some(header_store::store::Collection::new()),
    };
    let outcome = Database::open(state);
    assert!(matches!(outcome, Err(OpenError::OpenError(_))));
}

#[test]
fn scenario_chain_db() {
    let mut db = open_fresh("chain-db");
    let header_bytes: Vec<u8> = vec![0x2A, 0x00, 0x01];
    let hash: Vec<u8> = vec![0xAA; 32];

    db.insert_header(&header_bytes, &hash, 42).unwrap();
    let expected_key = "aa".repeat(32);
    assert_eq!(
        db.get(CollectionId::BlockHeaders, &Key::Text(expected_key.clone()))
            .unwrap(),
        Some("2a0001".to_string())
    );
    assert_eq!(
        db.get(CollectionId::BestChain, &Key::Number(42)).unwrap(),
        Some(expected_key.clone())
    );

    // Re-inserting the same bytes: no change, and still a success.
    assert!(db.insert_header(&header_bytes, &hash, 42).is_ok());
    assert_eq!(db.count(CollectionId::BlockHeaders), 1);
    assert_eq!(db.count(CollectionId::BestChain), 1);
    assert_eq!(
        db.get(CollectionId::BlockHeaders, &Key::Text(expected_key))
            .unwrap(),
        Some("2a0001".to_string())
    );
}

#[test]
fn empty_header_encodes_to_empty_hex() {
    let mut db = open_fresh("chain-db");
    let header: Vec<u8> = vec![];
    let hash: Vec<u8> = vec![0x00; 32];
    db.insert_header(&header, &hash, 0).unwrap();
    assert_eq!(
        db.get(CollectionId::BlockHeaders, &Key::Text("00".repeat(32)))
            .unwrap(),
        Some(String::new())
    );
}
