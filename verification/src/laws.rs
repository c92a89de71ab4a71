//! The general laws of the store, proved over the same specification
//! functions that the executable functions' contracts use.

use vstd::prelude::*;

use crate::database::{
    spec_close, spec_create_schema, spec_get, spec_insert_header, spec_open,
    store_view_wf, DbView, GetOutcome, StoreView,
};
use crate::hex_codec::{hex_of, lemma_hex_of_injective};
use crate::store::{KeyView, ValueView};
use crate::transaction::CollectionId;

verus! {

/// Law: opening a fresh store (version 0) creates exactly the two
/// collections, both empty.
pub proof fn lemma_open_fresh_creates_schema(s: StoreView)
    requires
        s.version == 0,
    ensures
        spec_create_schema(s).block_headers == Some(Map::<KeyView, ValueView>::empty()),
        spec_create_schema(s).best_chain == Some(Map::<KeyView, ValueView>::empty()),
        spec_open(s).block_headers == Map::<KeyView, ValueView>::empty(),
        spec_open(s).best_chain == Map::<KeyView, ValueView>::empty(),
{
}

/// Law: the schema upgrade is idempotent. A store already at the current
/// schema version (as any closed store is) gets no further collections and
/// is left exactly as it is.
pub proof fn lemma_upgrade_idempotent(s: StoreView)
    requires
        s.version >= 1,
    ensures
        spec_create_schema(s) == s,
{
}

/// Law: closing an open store and opening it again yields the same
/// database content, whatever the store looked like before the first open.
pub proof fn lemma_reopen_preserves_contents(s: StoreView)
    requires
        store_view_wf(s),
        s.version <= 1,
    ensures
        spec_open(spec_close(spec_open(s))) == spec_open(s),
{
    assert(spec_open(spec_close(spec_open(s))) =~= spec_open(s));
}

/// Law: after inserting a header, reading `block-headers` at the hex of
/// its hash finds the hex of the header.
///
/// The one excluded input is a store that already holds a different value
/// under that hash key (two distinct headers carrying the same declared
/// hash): the duplicate insert then leaves the earlier value in place.
pub proof fn lemma_insert_then_get_header(d: DbView, header: Seq<u8>, hash: Seq<u8>, number: u64)
    requires
        d.block_headers.contains_key(KeyView::Text(hex_of(hash)))
            ==> d.block_headers[KeyView::Text(hex_of(hash))] == ValueView::Text(hex_of(header)),
    ensures
        spec_get(
            spec_insert_header(d, header, hash, number),
            CollectionId::BlockHeaders,
            KeyView::Text(hex_of(hash)),
        ) == GetOutcome::Found(hex_of(header)),
{
}

/// Law: inserting the same header twice is the same as inserting it once;
/// the second insert changes nothing at all.
pub proof fn lemma_insert_idempotent(d: DbView, header: Seq<u8>, hash: Seq<u8>, number: u64)
    ensures
        spec_insert_header(spec_insert_header(d, header, hash, number), header, hash, number)
            == spec_insert_header(d, header, hash, number),
{
}

/// Law: inserting a header whose hash is new adds exactly one entry to
/// `block-headers`.
pub proof fn lemma_insert_new_header_count(d: DbView, header: Seq<u8>, hash: Seq<u8>, number: u64)
    requires
        d.block_headers.dom().finite(),
        !d.block_headers.contains_key(KeyView::Text(hex_of(hash))),
    ensures
        spec_insert_header(d, header, hash, number).block_headers.len() == d.block_headers.len()
            + 1,
{
}

/// Law: after inserting a header whose hash is new, reading `best-chain`
/// at the header's number finds the hex of the header's hash.
///
/// The excluded input is a duplicate insert (the hash key already
/// present): it writes nothing, so whatever `best-chain` held for that
/// number stays.
pub proof fn lemma_insert_updates_best_chain(
    d: DbView,
    header: Seq<u8>,
    hash: Seq<u8>,
    number: u64,
)
    requires
        !d.block_headers.contains_key(KeyView::Text(hex_of(hash))),
    ensures
        spec_get(
            spec_insert_header(d, header, hash, number),
            CollectionId::BestChain,
            KeyView::Number(number),
        ) == GetOutcome::Found(hex_of(hash)),
{
}

/// Law: inserting two distinct new headers that declare the same number
/// leaves the `best-chain` entry for that number pointing at the second
/// header's hash — the later writer wins, with no canonicality check.
pub proof fn lemma_same_number_overwrites(
    d: DbView,
    header1: Seq<u8>,
    hash1: Seq<u8>,
    header2: Seq<u8>,
    hash2: Seq<u8>,
    number: u64,
)
    requires
        hash1 != hash2,
        !d.block_headers.contains_key(KeyView::Text(hex_of(hash1))),
        !d.block_headers.contains_key(KeyView::Text(hex_of(hash2))),
    ensures
        spec_get(
            spec_insert_header(
                spec_insert_header(d, header1, hash1, number),
                header2,
                hash2,
                number,
            ),
            CollectionId::BestChain,
            KeyView::Number(number),
        ) == GetOutcome::Found(hex_of(hash2)),
{
    if hex_of(hash1) == hex_of(hash2) {
        lemma_hex_of_injective(hash1, hash2);
    }
    assert(hex_of(hash1) != hex_of(hash2));
}

} // verus!
