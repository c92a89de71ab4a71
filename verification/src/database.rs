//! The header store itself: opening (and upgrading) a persisted store,
//! inserting a header transactionally into the two collections, and reading
//! a single value from a collection by key.

use vstd::prelude::*;

use crate::errors::{AccessError, CorruptedError, EngineError, OpenError};
use crate::hex_codec::{encode_hex, hex_of};
use crate::host::{classify_add_failure, interpret_get_value, transaction_outcome};
use crate::store::{Collection, Key, KeyView, Value, ValueView};
use crate::transaction::{CollectionId, Transaction, TransactionMode};

verus! {

/// The persisted image of a named store: its schema version and whichever
/// of the two collections exist. A fresh store is at version 0 with no
/// collections; the schema manager brings it to version 1 with both.
pub struct StoreState {
    pub name: String,
    pub version: u32,
    pub block_headers: Option<Collection>,
    pub best_chain: Option<Collection>,
}

/// The abstract form of a persisted store image.
#[verifier::ext_equal]
pub struct StoreView {
    pub name: Seq<char>,
    pub version: u32,
    pub block_headers: Option<Map<KeyView, ValueView>>,
    pub best_chain: Option<Map<KeyView, ValueView>>,
}

impl View for StoreState {
    type V = StoreView;

    open spec fn view(&self) -> StoreView {
        StoreView {
            name: self.name@,
            version: self.version,
            block_headers: match self.block_headers {
                Some(c) => Some(c@),
                None => None,
            },
            best_chain: match self.best_chain {
                Some(c) => Some(c@),
                None => None,
            },
        }
    }
}

/// The structural part of a well-formed store image, stated on views so
/// that the laws can speak of it.
pub open spec fn store_view_wf(s: StoreView) -> bool {
    &&& (s.version == 0 ==> s.block_headers is None && s.best_chain is None)
    &&& (s.version >= 1 ==> s.block_headers is Some && s.best_chain is Some)
}

impl StoreState {
    /// Whichever collections exist are well-formed.
    pub open spec fn collections_wf(&self) -> bool {
        &&& (self.block_headers matches Some(c) ==> c.wf())
        &&& (self.best_chain matches Some(c) ==> c.wf())
    }

    /// A store image is well-formed when its collections are and when the
    /// collections present match its schema version.
    pub open spec fn wf(&self) -> bool {
        &&& self.collections_wf()
        &&& store_view_wf(self@)
    }

    /// A fresh, never-opened store image.
    pub fn fresh(name: String) -> (s: StoreState)
        ensures
            s.wf(),
            s@.name == name@,
            s@.version == 0,
            s@.block_headers is None,
            s@.best_chain is None,
    {
        StoreState { name, version: 0, block_headers: None, best_chain: None }
    }
}

/// What the schema manager does to a store image found at a given version:
/// a store at version 0 gets the two empty collections; a store already at
/// the current schema version is left as it is.
pub open spec fn spec_create_schema(s: StoreView) -> StoreView {
    if s.version == 0 {
        StoreView {
            block_headers: Some(Map::empty()),
            best_chain: Some(Map::empty()),
            ..s
        }
    } else {
        s
    }
}

/// Updates a store image to the current schema, creating exactly the
/// missing collections and never touching existing ones. Called only from
/// within the open protocol, with the version the engine reported.
pub fn create_schema(state: &mut StoreState, old_version: u32)
    requires
        old(state).wf(),
        old_version == old(state).version,
    ensures
        final(state)@ == spec_create_schema(old(state)@),
        final(state).collections_wf(),
{
    if old_version == 0 {
        state.block_headers = Some(Collection::new());
        state.best_chain = Some(Collection::new());
        proof {
            assert(state@ =~= spec_create_schema(old(state)@));
        }
    } else {
        proof {
            assert(state@ =~= spec_create_schema(old(state)@));
        }
    }
}

/// An open database: the two collections of the store, exclusively owned
/// by this handle until it is closed.
pub struct Database {
    name: String,
    block_headers: Collection,
    best_chain: Collection,
}

/// The abstract form of an open database.
#[verifier::ext_equal]
pub struct DbView {
    pub name: Seq<char>,
    pub block_headers: Map<KeyView, ValueView>,
    pub best_chain: Map<KeyView, ValueView>,
}

impl View for Database {
    type V = DbView;

    closed spec fn view(&self) -> DbView {
        DbView {
            name: self.name@,
            block_headers: self.block_headers@,
            best_chain: self.best_chain@,
        }
    }
}

/// The content of one collection of an open database.
pub open spec fn spec_collection(d: DbView, collection: CollectionId) -> Map<KeyView, ValueView> {
    match collection {
        CollectionId::BlockHeaders => d.block_headers,
        CollectionId::BestChain => d.best_chain,
    }
}

/// The database a store image opens to: the image after the schema
/// upgrade, with both collections present.
pub open spec fn spec_open(s: StoreView) -> DbView {
    let t = spec_create_schema(s);
    DbView {
        name: t.name,
        block_headers: match t.block_headers {
            Some(m) => m,
            None => Map::empty(),
        },
        best_chain: match t.best_chain {
            Some(m) => m,
            None => Map::empty(),
        },
    }
}

/// The store image a database closes to: version 1, both collections
/// persisted as they are.
pub open spec fn spec_close(d: DbView) -> StoreView {
    StoreView {
        name: d.name,
        version: 1,
        block_headers: Some(d.block_headers),
        best_chain: Some(d.best_chain),
    }
}

/// What inserting a header does to an open database: nothing when the
/// hash key is already present (idempotent duplicate insert); otherwise one
/// entry added to `block-headers` and the `best-chain` entry for the
/// header's number unconditionally overwritten.
pub open spec fn spec_insert_header(
    d: DbView,
    header: Seq<u8>,
    hash: Seq<u8>,
    number: u64,
) -> DbView {
    let key = KeyView::Text(hex_of(hash));
    if d.block_headers.contains_key(key) {
        d
    } else {
        DbView {
            name: d.name,
            block_headers: d.block_headers.insert(key, ValueView::Text(hex_of(header))),
            best_chain: d.best_chain.insert(
                KeyView::Number(number),
                ValueView::Text(hex_of(hash)),
            ),
        }
    }
}

/// The outcome of a single-key read.
pub enum GetOutcome {
    Absent,
    Found(Seq<char>),
    Corrupt,
}

/// What a single-key read returns: absent keys read as nothing, text
/// values are returned, and any other stored value is corruption.
pub open spec fn spec_get(d: DbView, collection: CollectionId, key: KeyView) -> GetOutcome {
    let m = spec_collection(d, collection);
    if !m.contains_key(key) {
        GetOutcome::Absent
    } else {
        match m[key] {
            ValueView::Text(s) => GetOutcome::Found(s),
            ValueView::Other => GetOutcome::Corrupt,
        }
    }
}

fn scope_contains(collections: &Vec<CollectionId>, target: CollectionId) -> (r: bool)
    ensures
        r == collections@.contains(target),
{
    let mut i: usize = 0;
    while i < collections.len()
        invariant
            i <= collections@.len(),
            forall|j: int| 0 <= j < i ==> collections@[j] != target,
        decreases collections@.len() - i,
    {
        if collections[i] == target {
            return true;
        }
        i = i + 1;
    }
    false
}

impl Database {
    /// Both collections are well-formed.
    pub closed spec fn wf(&self) -> bool {
        &&& self.block_headers.wf()
        &&& self.best_chain.wf()
    }

    /// Tries to open the database over the given store image: runs the
    /// schema upgrade when the image is behind the current schema version,
    /// and fails as the engine does when the image is ahead of it.
    pub fn open(state: StoreState) -> (r: Result<Database, OpenError>)
        requires
            state.wf(),
        ensures
            state@.version <= 1 ==> (r matches Ok(db) && db.wf() && db@ == spec_open(state@)),
            state@.version > 1 ==> (r matches Err(e) && e matches OpenError::OpenError(_)),
    {
        if state.version > 1 {
            return Err(
                OpenError::OpenError(
                    EngineError::new(
                        "VersionError".to_owned(),
                        "the requested version is below the stored version".to_owned(),
                    ),
                ),
            );
        }
        let mut st = state;
        let old_version = st.version;
        create_schema(&mut st, old_version);
        let name = st.name;
        let block_headers = st.block_headers.unwrap();
        let best_chain = st.best_chain.unwrap();
        Ok(Database { name, block_headers, best_chain })
    }

    /// Closes the handle, handing back the persisted image the connection
    /// leaves behind.
    pub fn close(self) -> (s: StoreState)
        requires
            self.wf(),
        ensures
            s.wf(),
            s@ == spec_close(self@),
    {
        let ghost dv = self@;
        let s = StoreState {
            name: self.name,
            version: 1,
            block_headers: Some(self.block_headers),
            best_chain: Some(self.best_chain),
        };
        proof {
            assert(s@ =~= spec_close(dv));
        }
        s
    }

    /// Opens a transaction scoped to the listed collections, in the given
    /// access mode, over a snapshot of their current content.
    pub fn begin(&self, collections: &Vec<CollectionId>, mode: TransactionMode) -> (t: Transaction)
        requires
            self.wf(),
        ensures
            t.wf(),
            t.spec_mode() == mode,
            t.in_scope(CollectionId::BlockHeaders) == collections@.contains(
                CollectionId::BlockHeaders,
            ),
            t.in_scope(CollectionId::BestChain) == collections@.contains(CollectionId::BestChain),
            t.in_scope(CollectionId::BlockHeaders) ==> t.col(CollectionId::BlockHeaders)
                == self@.block_headers,
            t.in_scope(CollectionId::BestChain) ==> t.col(CollectionId::BestChain)
                == self@.best_chain,
    {
        let block_headers = if scope_contains(collections, CollectionId::BlockHeaders) {
            Some(self.block_headers.duplicate())
        } else {
            None
        };
        let best_chain = if scope_contains(collections, CollectionId::BestChain) {
            Some(self.best_chain.duplicate())
        } else {
            None
        };
        Transaction::snapshot(mode, block_headers, best_chain)
    }

    /// Commits a transaction: the snapshots it worked on replace the
    /// collections in its scope, atomically; collections out of scope are
    /// untouched.
    pub fn commit(&mut self, transaction: Transaction)
        requires
            old(self).wf(),
            transaction.wf(),
        ensures
            final(self).wf(),
            final(self)@.name == old(self)@.name,
            transaction.in_scope(CollectionId::BlockHeaders) ==> final(self)@.block_headers
                == transaction.col(CollectionId::BlockHeaders),
            !transaction.in_scope(CollectionId::BlockHeaders) ==> final(self)@.block_headers
                == old(self)@.block_headers,
            transaction.in_scope(CollectionId::BestChain) ==> final(self)@.best_chain
                == transaction.col(CollectionId::BestChain),
            !transaction.in_scope(CollectionId::BestChain) ==> final(self)@.best_chain == old(
                self,
            )@.best_chain,
    {
        let (block_headers, best_chain) = transaction.into_parts();
        match block_headers {
            Some(c) => {
                self.block_headers = c;
            },
            None => {},
        }
        match best_chain {
            Some(c) => {
                self.best_chain = c;
            },
            None => {},
        }
    }

    /// The number of entries a collection holds.
    pub fn count(&self, collection: CollectionId) -> (n: usize)
        requires
            self.wf(),
        ensures
            n == spec_collection(self@, collection).len(),
    {
        match collection {
            CollectionId::BlockHeaders => self.block_headers.len(),
            CollectionId::BestChain => self.best_chain.len(),
        }
    }

    /// Inserts the given header in the database: the hex-encoded header is
    /// stored under the hex of its hash in `block-headers`, and the hex of
    /// the hash is recorded under the header's number in `best-chain`,
    /// atomically. Re-inserting an already present header succeeds and
    /// changes nothing at all.
    ///
    /// The header's 32-byte hash and its decoded number are computed by
    /// host-supplied routines and handed in alongside the encoded bytes.
    pub fn insert_header(
        &mut self,
        scale_encoded_header: &[u8],
        header_hash: &[u8],
        number: u64,
    ) -> (r: Result<(), AccessError>)
        requires
            old(self).wf(),
            header_hash@.len() == 32,
            scale_encoded_header@.len() * 2 <= usize::MAX,
        ensures
            final(self).wf(),
            r is Ok,
            final(self)@ == spec_insert_header(
                old(self)@,
                scale_encoded_header@,
                header_hash@,
                number,
            ),
    {
        let key_hex = encode_hex(header_hash);
        let value_hex = encode_hex(scale_encoded_header);

        let mut scope: Vec<CollectionId> = Vec::new();
        scope.push(CollectionId::BlockHeaders);
        scope.push(CollectionId::BestChain);
        proof {
            assert(scope@.contains(CollectionId::BlockHeaders)) by {
                assert(scope@[0] == CollectionId::BlockHeaders);
            }
            assert(scope@.contains(CollectionId::BestChain)) by {
                assert(scope@[1] == CollectionId::BestChain);
            }
        }
        let mut txn = self.begin(&scope, TransactionMode::ReadWrite);

        match txn.add(
            CollectionId::BlockHeaders,
            Key::Text(key_hex.clone()),
            Value::Text(value_hex),
        ) {
            Ok(_) => {},
            Err(e) => {
                // The entry already exists: the insert is idempotent and the
                // rest of the write sequence is skipped, so the dropped
                // transaction aborts with no effect.
                match classify_add_failure(e) {
                    Ok(_) => {
                        return Ok(());
                    },
                    Err(err) => {
                        return Err(err);
                    },
                }
            },
        }

        txn.put(CollectionId::BestChain, Key::Number(number), Value::Text(key_hex));
        self.commit(txn);
        proof {
            assert(self@ =~= spec_insert_header(
                old(self)@,
                scale_encoded_header@,
                header_hash@,
                number,
            ));
        }
        transaction_outcome(None)
    }

    /// Reads one value at the given key from one collection, through a
    /// read-only transaction.
    pub fn get(&self, collection: CollectionId, key: &Key) -> (r: Result<
        Option<String>,
        AccessError,
    >)
        requires
            self.wf(),
        ensures
            ({
                let outcome = spec_get(self@, collection, key@);
                &&& (outcome is Absent ==> (r matches Ok(v) && v is None))
                &&& (outcome matches GetOutcome::Found(t) ==> (r matches Ok(v) && v matches Some(s)
                    && s@ == t))
                &&& (outcome is Corrupt ==> (r matches Err(e) && e matches AccessError::Corrupted(
                    CorruptedError::UnexpectedValueTy,
                )))
            }),
    {
        let mut scope: Vec<CollectionId> = Vec::new();
        scope.push(collection);
        proof {
            assert(scope@.contains(collection)) by {
                assert(scope@[0] == collection);
            }
        }
        let txn = self.begin(&scope, TransactionMode::ReadOnly);
        proof {
            assert(txn.col(collection) == spec_collection(self@, collection));
        }
        let stored = txn.read(collection, key);
        interpret_get_value(stored)
    }
}

} // verus!
