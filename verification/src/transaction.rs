//! The transaction coordinator: an atomic, isolated unit of work scoped to
//! an explicit list of collections and an access mode. A transaction works
//! on a snapshot of the scoped collections; its writes become durable only
//! when the database commits it, so dropping an uncommitted transaction
//! aborts it with no observable effect.

use vstd::prelude::*;

use crate::errors::EngineError;
use crate::host::constraint_error_name;
use crate::store::{Collection, Key, KeyView, Value, ValueView};

verus! {

/// The access mode of a transaction.
#[derive(Debug, Clone, Copy, PartialEq, Eq, Structural)]
pub enum TransactionMode {
    ReadOnly,
    ReadWrite,
}

/// The two collections the store defines; their names are fixed at compile
/// time.
#[derive(Debug, Clone, Copy, PartialEq, Eq, Structural)]
pub enum CollectionId {
    BlockHeaders,
    BestChain,
}

/// An open transaction holding a snapshot of the collections in its scope.
#[derive(Debug)]
pub struct Transaction {
    mode: TransactionMode,
    block_headers: Option<Collection>,
    best_chain: Option<Collection>,
}

impl Transaction {
    /// The transaction's access mode.
    pub closed spec fn spec_mode(&self) -> TransactionMode {
        self.mode
    }

    /// Whether a collection is in the transaction's scope.
    pub closed spec fn in_scope(&self, collection: CollectionId) -> bool {
        match collection {
            CollectionId::BlockHeaders => self.block_headers is Some,
            CollectionId::BestChain => self.best_chain is Some,
        }
    }

    /// The current content of a scoped collection, as seen and written by
    /// this transaction.
    pub closed spec fn col(&self, collection: CollectionId) -> Map<KeyView, ValueView> {
        match collection {
            CollectionId::BlockHeaders => match self.block_headers {
                Some(c) => c@,
                None => Map::empty(),
            },
            CollectionId::BestChain => match self.best_chain {
                Some(c) => c@,
                None => Map::empty(),
            },
        }
    }

    /// The scoped snapshots are well-formed.
    pub closed spec fn wf(&self) -> bool {
        &&& (self.block_headers matches Some(c) ==> c.wf())
        &&& (self.best_chain matches Some(c) ==> c.wf())
    }

    pub(crate) fn snapshot(
        mode: TransactionMode,
        block_headers: Option<Collection>,
        best_chain: Option<Collection>,
    ) -> (t: Transaction)
        ensures
            t.spec_mode() == mode,
            t.in_scope(CollectionId::BlockHeaders) == (block_headers is Some),
            t.in_scope(CollectionId::BestChain) == (best_chain is Some),
            block_headers matches Some(c) ==> t.col(CollectionId::BlockHeaders) == c@,
            best_chain matches Some(c) ==> t.col(CollectionId::BestChain) == c@,
            ((block_headers matches Some(c) ==> c.wf()) && (best_chain matches Some(c)
                ==> c.wf())) ==> t.wf(),
    {
        Transaction { mode, block_headers, best_chain }
    }

    pub(crate) fn into_parts(self) -> (r: (Option<Collection>, Option<Collection>))
        ensures
            (r.0 is Some) == self.in_scope(CollectionId::BlockHeaders),
            (r.1 is Some) == self.in_scope(CollectionId::BestChain),
            r.0 matches Some(c) ==> (c@ == self.col(CollectionId::BlockHeaders) && (self.wf()
                ==> c.wf())),
            r.1 matches Some(c) ==> (c@ == self.col(CollectionId::BestChain) && (self.wf()
                ==> c.wf())),
    {
        (self.block_headers, self.best_chain)
    }

    /// Reads the value stored under a key in a scoped collection.
    pub fn read(&self, collection: CollectionId, key: &Key) -> (r: Option<Value>)
        requires
            self.wf(),
            self.in_scope(collection),
        ensures
            self.col(collection).contains_key(key@) ==> (r matches Some(v) && v@ == self.col(
                collection,
            )[key@]),
            !self.col(collection).contains_key(key@) ==> r is None,
    {
        match collection {
            CollectionId::BlockHeaders => match &self.block_headers {
                Some(c) => c.get_value(key),
                None => None,
            },
            CollectionId::BestChain => match &self.best_chain {
                Some(c) => c.get_value(key),
                None => None,
            },
        }
    }

    /// Issues an insert-if-absent operation: fails with a
    /// uniqueness-constraint violation when the key is already present, and
    /// writes the entry otherwise.
    pub fn add(&mut self, collection: CollectionId, key: Key, value: Value) -> (r: Result<
        (),
        EngineError,
    >)
        requires
            old(self).wf(),
            old(self).in_scope(collection),
            old(self).spec_mode() == TransactionMode::ReadWrite,
        ensures
            final(self).wf(),
            final(self).spec_mode() == old(self).spec_mode(),
            forall|c: CollectionId| final(self).in_scope(c) == old(self).in_scope(c),
            old(self).col(collection).contains_key(key@) ==> (r matches Err(e) && e.name@
                == constraint_error_name() && forall|c: CollectionId|
                final(self).col(c) == old(self).col(c)),
            !old(self).col(collection).contains_key(key@) ==> (r is Ok && final(self).col(
                collection,
            ) == old(self).col(collection).insert(key@, value@) && forall|c: CollectionId|
                c != collection ==> final(self).col(c) == old(self).col(c)),
    {
        let present = match collection {
            CollectionId::BlockHeaders => match &self.block_headers {
                Some(c) => c.contains_key(&key),
                None => false,
            },
            CollectionId::BestChain => match &self.best_chain {
                Some(c) => c.contains_key(&key),
                None => false,
            },
        };
        if present {
            Err(
                EngineError::new(
                    "ConstraintError".to_owned(),
                    "an entry with this key already exists".to_owned(),
                ),
            )
        } else {
            match collection {
                CollectionId::BlockHeaders => match &mut self.block_headers {
                    Some(c) => c.put(key, value),
                    None => {},
                },
                CollectionId::BestChain => match &mut self.best_chain {
                    Some(c) => c.put(key, value),
                    None => {},
                },
            }
            Ok(())
        }
    }

    /// Issues an upsert operation: writes the entry, replacing any previous
    /// value under the key.
    pub fn put(&mut self, collection: CollectionId, key: Key, value: Value)
        requires
            old(self).wf(),
            old(self).in_scope(collection),
            old(self).spec_mode() == TransactionMode::ReadWrite,
        ensures
            final(self).wf(),
            final(self).spec_mode() == old(self).spec_mode(),
            forall|c: CollectionId| final(self).in_scope(c) == old(self).in_scope(c),
            final(self).col(collection) == old(self).col(collection).insert(key@, value@),
            forall|c: CollectionId|
                c != collection ==> final(self).col(c) == old(self).col(c),
    {
        match collection {
            CollectionId::BlockHeaders => match &mut self.block_headers {
                Some(c) => c.put(key, value),
                None => {},
            },
            CollectionId::BestChain => match &mut self.best_chain {
                Some(c) => c.put(key, value),
                None => {},
            },
        }
    }
}

} // verus!
