//! The data held by the store: keys, stored values, and a named collection
//! modelled as a key-value table with unique keys. A collection's abstract
//! content is a `Map` from key views to value views.

use vstd::prelude::*;

verus! {

/// A key in a collection. The store uses text keys (hex-encoded hashes in
/// `block-headers`) and non-negative integer keys (block numbers in
/// `best-chain`).
#[derive(Debug)]
pub enum Key {
    Text(String),
    Number(u64),
}

/// The abstract form of a key.
pub enum KeyView {
    Text(Seq<char>),
    Number(u64),
}

impl View for Key {
    type V = KeyView;

    open spec fn view(&self) -> KeyView {
        match self {
            Key::Text(s) => KeyView::Text(s@),
            Key::Number(n) => KeyView::Number(*n),
        }
    }
}

impl Key {
    /// An identical copy of the key.
    pub fn duplicate(&self) -> (k: Key)
        ensures
            k == *self,
    {
        match self {
            Key::Text(s) => Key::Text(s.clone()),
            Key::Number(n) => Key::Number(*n),
        }
    }
}

/// A value stored in a collection: either text (the only form this store
/// ever writes) or some other host value, which this store treats as
/// corruption when read.
#[derive(Debug)]
pub enum Value {
    Text(String),
    Other,
}

/// The abstract form of a stored value.
pub enum ValueView {
    Text(Seq<char>),
    Other,
}

impl View for Value {
    type V = ValueView;

    open spec fn view(&self) -> ValueView {
        match self {
            Value::Text(s) => ValueView::Text(s@),
            Value::Other => ValueView::Other,
        }
    }
}

impl Value {
    /// An identical copy of the value.
    pub fn duplicate(&self) -> (v: Value)
        ensures
            v == *self,
    {
        match self {
            Value::Text(s) => Value::Text(s.clone()),
            Value::Other => Value::Other,
        }
    }
}

/// True exactly when the two keys denote the same abstract key.
pub fn key_eq(a: &Key, b: &Key) -> (r: bool)
    ensures
        r == (a@ == b@),
{
    match (a, b) {
        (Key::Text(x), Key::Text(y)) => *x == *y,
        (Key::Number(x), Key::Number(y)) => *x == *y,
        _ => false,
    }
}

/// The map described by a sequence of key-value entries, later entries
/// taking precedence (entries are kept unique, so precedence never matters).
pub closed spec fn entries_map(s: Seq<(Key, Value)>) -> Map<KeyView, ValueView>
    decreases s.len(),
{
    if s.len() == 0 {
        Map::empty()
    } else {
        entries_map(s.drop_last()).insert(s.last().0@, s.last().1@)
    }
}

/// No two entries share a key.
pub closed spec fn unique_keys(s: Seq<(Key, Value)>) -> bool {
    forall|i: int, j: int| 0 <= i < j < s.len() ==> s[i].0@ != s[j].0@
}

proof fn lemma_map_domain(s: Seq<(Key, Value)>)
    ensures
        forall|k: KeyView|
            entries_map(s).contains_key(k) <==> (exists|i: int|
                0 <= i < s.len() && #[trigger] s[i].0@ == k),
        entries_map(s).dom().finite(),
    decreases s.len(),
{
    if s.len() == 0 {
    } else {
        lemma_map_domain(s.drop_last());
        assert forall|k: KeyView| entries_map(s).contains_key(k) implies (exists|i: int|
            0 <= i < s.len() && #[trigger] s[i].0@ == k) by {
            if k == s.last().0@ {
                assert(s[s.len() - 1].0@ == k);
            } else {
                let i = choose|i: int| 0 <= i < s.drop_last().len() && #[trigger] s.drop_last()[i].0@ == k;
                assert(s[i].0@ == k);
            }
        }
        assert forall|k: KeyView| (exists|i: int| 0 <= i < s.len() && #[trigger] s[i].0@ == k)
            implies entries_map(s).contains_key(k) by {
            let i = choose|i: int| 0 <= i < s.len() && #[trigger] s[i].0@ == k;
            if i < s.len() - 1 {
                assert(s.drop_last()[i].0@ == k);
            }
        }
    }
}

proof fn lemma_map_at(s: Seq<(Key, Value)>, i: int)
    requires
        unique_keys(s),
        0 <= i < s.len(),
    ensures
        entries_map(s).contains_key(s[i].0@),
        entries_map(s)[s[i].0@] == s[i].1@,
    decreases s.len(),
{
    if i == s.len() - 1 {
    } else {
        assert(unique_keys(s.drop_last())) by {
            assert(forall|p: int, q: int|
                0 <= p < q < s.drop_last().len() ==> s.drop_last()[p].0@ != s.drop_last()[q].0@);
        }
        assert(s.drop_last()[i] == s[i]);
        lemma_map_at(s.drop_last(), i);
        assert(s[i].0@ != s.last().0@);
    }
}

proof fn lemma_map_len(s: Seq<(Key, Value)>)
    requires
        unique_keys(s),
    ensures
        entries_map(s).len() == s.len(),
    decreases s.len(),
{
    if s.len() == 0 {
        assert(entries_map(s).dom() =~= Set::<KeyView>::empty());
    } else {
        assert(unique_keys(s.drop_last()));
        lemma_map_len(s.drop_last());
        lemma_map_domain(s.drop_last());
        assert(!entries_map(s.drop_last()).contains_key(s.last().0@)) by {
            if entries_map(s.drop_last()).contains_key(s.last().0@) {
                let i = choose|i: int|
                    0 <= i < s.drop_last().len() && #[trigger] s.drop_last()[i].0@ == s.last().0@;
                assert(s[i].0@ == s[s.len() - 1].0@);
            }
        }
        assert(entries_map(s).dom() =~= entries_map(s.drop_last()).dom().insert(s.last().0@));
    }
}

proof fn lemma_map_update(s: Seq<(Key, Value)>, i: int, p: (Key, Value))
    requires
        unique_keys(s),
        0 <= i < s.len(),
        p.0@ == s[i].0@,
    ensures
        unique_keys(s.update(i, p)),
        entries_map(s.update(i, p)) == entries_map(s).insert(p.0@, p.1@),
    decreases s.len(),
{
    let su = s.update(i, p);
    assert(unique_keys(su)) by {
        assert(forall|a: int| 0 <= a < s.len() ==> su[a].0@ == s[a].0@);
    }
    if i == s.len() - 1 {
        assert(su.drop_last() =~= s.drop_last());
        assert(su.last() == p);
        assert(entries_map(su) =~= entries_map(s).insert(p.0@, p.1@));
    } else {
        assert(unique_keys(s.drop_last()));
        assert(s.drop_last()[i] == s[i]);
        lemma_map_update(s.drop_last(), i, p);
        assert(su.drop_last() =~= s.drop_last().update(i, p));
        assert(su.last() == s.last());
        assert(s[i].0@ != s.last().0@);
        assert(entries_map(su) =~= entries_map(s).insert(p.0@, p.1@));
    }
}

/// One named collection of the store: a key-value table with unique keys.
#[derive(Debug)]
pub struct Collection {
    entries: Vec<(Key, Value)>,
}

impl View for Collection {
    type V = Map<KeyView, ValueView>;

    closed spec fn view(&self) -> Map<KeyView, ValueView> {
        entries_map(self.entries@)
    }
}

fn duplicate_entry(e: &(Key, Value)) -> (r: (Key, Value))
    ensures
        r == *e,
{
    (e.0.duplicate(), e.1.duplicate())
}

impl Collection {
    /// The collection's entries have unique keys.
    pub closed spec fn wf(&self) -> bool {
        unique_keys(self.entries@)
    }

    /// An empty collection, as created by the schema manager.
    pub fn new() -> (c: Collection)
        ensures
            c.wf(),
            c@ == Map::<KeyView, ValueView>::empty(),
    {
        let c = Collection { entries: Vec::new() };
        proof {
            assert(c@ =~= Map::<KeyView, ValueView>::empty());
        }
        c
    }

    fn index_of(&self, key: &Key) -> (r: Option<usize>)
        ensures
            r matches Some(i) ==> i < self.entries@.len() && self.entries@[i as int].0@ == key@,
            r is None ==> forall|j: int| 0 <= j < self.entries@.len() ==> self.entries@[j].0@ != key@,
    {
        let mut i: usize = 0;
        while i < self.entries.len()
            invariant
                i <= self.entries@.len(),
                forall|j: int| 0 <= j < i ==> self.entries@[j].0@ != key@,
            decreases self.entries@.len() - i,
        {
            if key_eq(&self.entries[i].0, key) {
                return Some(i);
            }
            i = i + 1;
        }
        None
    }

    /// Whether the collection holds an entry under the given key.
    pub fn contains_key(&self, key: &Key) -> (r: bool)
        requires
            self.wf(),
        ensures
            r == self@.contains_key(key@),
    {
        proof {
            lemma_map_domain(self.entries@);
        }
        match self.index_of(key) {
            Some(i) => {
                proof {
                    assert(self.entries@[i as int].0@ == key@);
                }
                true
            },
            None => false,
        }
    }

    /// The value stored under the given key, if any.
    pub fn get_value(&self, key: &Key) -> (r: Option<Value>)
        requires
            self.wf(),
        ensures
            self@.contains_key(key@) ==> (r matches Some(v) && v@ == self@[key@]),
            !self@.contains_key(key@) ==> r is None,
    {
        proof {
            lemma_map_domain(self.entries@);
        }
        match self.index_of(key) {
            Some(i) => {
                proof {
                    lemma_map_at(self.entries@, i as int);
                }
                Some(self.entries[i].1.duplicate())
            },
            None => None,
        }
    }

    /// Stores the value under the key, replacing any previous value.
    pub fn put(&mut self, key: Key, value: Value)
        requires
            old(self).wf(),
        ensures
            final(self).wf(),
            final(self)@ == old(self)@.insert(key@, value@),
    {
        let ghost oe = self.entries@;
        match self.index_of(&key) {
            Some(i) => {
                let p = (key, value);
                proof {
                    lemma_map_update(oe, i as int, p);
                }
                self.entries[i] = p;
            },
            None => {
                let p = (key, value);
                self.entries.push(p);
                proof {
                    assert(self.entries@.drop_last() =~= oe);
                    assert(unique_keys(self.entries@)) by {
                        assert(forall|a: int|
                            0 <= a < oe.len() ==> self.entries@[a].0@ == oe[a].0@);
                    }
                }
            },
        }
    }

    /// The number of entries in the collection.
    pub fn len(&self) -> (n: usize)
        requires
            self.wf(),
        ensures
            n == self@.len(),
    {
        proof {
            lemma_map_len(self.entries@);
        }
        self.entries.len()
    }

    /// An identical copy of the collection, as taken by a transaction
    /// snapshot.
    pub fn duplicate(&self) -> (c: Collection)
        ensures
            c@ == self@,
            c.wf() <==> self.wf(),
    {
        let mut out: Vec<(Key, Value)> = Vec::new();
        let mut i: usize = 0;
        while i < self.entries.len()
            invariant
                i <= self.entries@.len(),
                out@ == self.entries@.subrange(0, i as int),
            decreases self.entries@.len() - i,
        {
            let p = duplicate_entry(&self.entries[i]);
            out.push(p);
            proof {
                assert(out@ =~= self.entries@.subrange(0, i + 1 as int));
            }
            i = i + 1;
        }
        proof {
            assert(out@ =~= self.entries@);
        }
        Collection { entries: out }
    }
}

} // verus!
