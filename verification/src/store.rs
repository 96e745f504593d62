//! The typed store: maps from byte-string keys to typed values, and single
//! typed cells, each under a prefix of its own.
//!
//! A map or cell is addressed by the name of the module that owns it and by
//! its own name. The prefix of either is the 128-bit XX hash of the module
//! name followed by that of the item name; the key under which an entry of a
//! map is persisted is that prefix, the 128-bit Blake2 hash of the entry's
//! own key, and the entry's own key.

use crate::hashing::{blake2_128, blake2_128_digest, twox_128, twox_128_digest};
use crate::scale::{append_bytes, bytes_eq, copy_bytes, encode_u64};
use vstd::bytes::*;
use vstd::prelude::*;

verus! {

/// The prefix of the item `item` of the module `module`.
pub open spec fn item_prefix(module: Seq<u8>, item: Seq<u8>) -> Seq<u8> {
    twox_128_digest(module)@ + twox_128_digest(item)@
}

/// The key under which the entry `key` of a map with prefix `prefix` is
/// persisted.
pub open spec fn hashed_key(prefix: Seq<u8>, key: Seq<u8>) -> Seq<u8> {
    prefix + blake2_128_digest(key)@ + key
}

/// What a map holds under `key`, if anything.
pub open spec fn held_under<K, V>(map: Map<K, V>, key: K) -> Option<V> {
    if map.contains_key(key) {
        Some(map[key])
    } else {
        None
    }
}

/// The map with `value` under `key`, or with nothing under it where `value`
/// is none.
pub open spec fn put_under<K, V>(map: Map<K, V>, key: K, value: Option<V>) -> Map<K, V> {
    match value {
        Some(v) => map.insert(key, v),
        None => map.remove(key),
    }
}

/// No key is listed twice.
pub open spec fn keys_distinct<V>(entries: Seq<(Vec<u8>, V)>) -> bool {
    forall|i: int, j: int|
        0 <= i < j < entries.len() ==> (#[trigger] entries[i]).0@ != (#[trigger] entries[j]).0@
}

/// `key` is listed.
pub open spec fn lists_key<V>(entries: Seq<(Vec<u8>, V)>, key: Seq<u8>) -> bool {
    exists|i: int| 0 <= i < entries.len() && (#[trigger] entries[i]).0@ == key
}

/// A position at which `key` is listed.
pub open spec fn position_of<V>(entries: Seq<(Vec<u8>, V)>, key: Seq<u8>) -> int {
    choose|i: int| 0 <= i < entries.len() && (#[trigger] entries[i]).0@ == key
}

/// The map that a listing of entries stands for.
pub open spec fn entries_map<V>(entries: Seq<(Vec<u8>, V)>) -> Map<Seq<u8>, V> {
    Map::new(
        |key: Seq<u8>| lists_key(entries, key),
        |key: Seq<u8>| entries[position_of(entries, key)].1,
    )
}

/// Two persisted keys of one map are equal only for equal entry keys.
pub proof fn lemma_hashed_key_injective(prefix: Seq<u8>, a: Seq<u8>, b: Seq<u8>)
    requires
        hashed_key(prefix, a) == hashed_key(prefix, b),
    ensures
        a == b,
{
    broadcast use vstd::array::group_array_axioms;

    let ka = hashed_key(prefix, a);
    let kb = hashed_key(prefix, b);
    let skip = prefix.len() + 16;
    assert(blake2_128_digest(a)@.len() == 16);
    assert(blake2_128_digest(b)@.len() == 16);
    assert(ka.len() == skip + a.len());
    assert(kb.len() == skip + b.len());
    assert(a =~= ka.subrange(skip as int, ka.len() as int));
    assert(b =~= kb.subrange(skip as int, kb.len() as int));
}

/// Under two different prefixes of the same length no two persisted keys
/// are equal, whatever the entries' own keys are.
pub proof fn lemma_prefixes_keep_apart(first: Seq<u8>, second: Seq<u8>, a: Seq<u8>, b: Seq<u8>)
    requires
        first.len() == second.len(),
        first != second,
    ensures
        hashed_key(first, a) != hashed_key(second, b),
{
    let ka = hashed_key(first, a);
    let kb = hashed_key(second, b);
    if ka == kb {
        assert(first =~= ka.subrange(0, first.len() as int));
        assert(second =~= kb.subrange(0, second.len() as int));
    }
}

/// The prefix of an item is 32 bytes long.
pub proof fn lemma_item_prefix_len(module: Seq<u8>, item: Seq<u8>)
    ensures
        item_prefix(module, item).len() == 32,
{
    broadcast use vstd::array::group_array_axioms;

}

/// Appending an entry under a key not yet listed inserts it.
proof fn lemma_push_entry<V>(entries: Seq<(Vec<u8>, V)>, entry: (Vec<u8>, V))
    requires
        keys_distinct(entries),
        !lists_key(entries, entry.0@),
    ensures
        keys_distinct(entries.push(entry)),
        entries_map(entries.push(entry)) == entries_map(entries).insert(entry.0@, entry.1),
{
    let after = entries.push(entry);
    assert forall|i: int, j: int| 0 <= i < j < after.len() implies (#[trigger] after[i]).0@ != (
    #[trigger] after[j]).0@ by {
        if j == entries.len() {
            assert(after[i] == entries[i]);
        } else {
            assert(after[i] == entries[i] && after[j] == entries[j]);
        }
    }
    assert forall|key: Seq<u8>| #[trigger]
        lists_key(after, key) == (key == entry.0@ || lists_key(entries, key)) by {
        if lists_key(after, key) {
            let i = position_of(after, key);
            if i < entries.len() {
                assert(entries[i].0@ == key);
            }
        }
        if key == entry.0@ {
            assert(after[entries.len() as int].0@ == key);
        }
        if lists_key(entries, key) {
            let i = position_of(entries, key);
            assert(after[i].0@ == key);
        }
    }
    assert forall|key: Seq<u8>| lists_key(after, key) implies #[trigger] entries_map(after)[key]
        == entries_map(entries).insert(entry.0@, entry.1)[key] by {
        let i = position_of(after, key);
        if key == entry.0@ {
            if i < entries.len() {
                assert(entries[i].0@ == key);
            }
        } else {
            let j = position_of(entries, key);
            assert(after[j].0@ == key);
            if i != j {
                if i < j {
                    assert(after[i].0@ != after[j].0@);
                } else {
                    assert(after[j].0@ != after[i].0@);
                }
            }
        }
    }
    assert(entries_map(after) =~= entries_map(entries).insert(entry.0@, entry.1));
}

/// Taking the entry at a position out removes its key.
proof fn lemma_remove_entry<V>(entries: Seq<(Vec<u8>, V)>, at: int)
    requires
        keys_distinct(entries),
        0 <= at < entries.len(),
    ensures
        keys_distinct(entries.remove(at)),
        entries_map(entries.remove(at)) == entries_map(entries).remove(entries[at].0@),
{
    let after = entries.remove(at);
    let gone = entries[at].0@;
    assert forall|i: int| 0 <= i < after.len() implies #[trigger] after[i] == entries[if i < at {
        i
    } else {
        i + 1
    }] by {}
    assert forall|i: int, j: int| 0 <= i < j < after.len() implies (#[trigger] after[i]).0@ != (
    #[trigger] after[j]).0@ by {
        let a = if i < at {
            i
        } else {
            i + 1
        };
        let b = if j < at {
            j
        } else {
            j + 1
        };
        assert(entries[a].0@ != entries[b].0@);
    }
    assert forall|key: Seq<u8>| #[trigger]
        lists_key(after, key) == (key != gone && lists_key(entries, key)) by {
        if lists_key(after, key) {
            let i = position_of(after, key);
            let a = if i < at {
                i
            } else {
                i + 1
            };
            assert(entries[a].0@ == key);
            if a < at {
                assert(entries[a].0@ != entries[at].0@);
            } else {
                assert(entries[at].0@ != entries[a].0@);
            }
        }
        if key != gone && lists_key(entries, key) {
            let a = position_of(entries, key);
            let i = if a < at {
                a
            } else {
                a - 1
            };
            assert(after[i].0@ == key);
        }
    }
    assert forall|key: Seq<u8>| lists_key(after, key) implies #[trigger] entries_map(after)[key]
        == entries_map(entries).remove(gone)[key] by {
        let i = position_of(after, key);
        let a = if i < at {
            i
        } else {
            i + 1
        };
        assert(entries[a].0@ == key);
        let b = position_of(entries, key);
        if a != b {
            if a < b {
                assert(entries[a].0@ != entries[b].0@);
            } else {
                assert(entries[b].0@ != entries[a].0@);
            }
        }
    }
    assert(entries_map(after) =~= entries_map(entries).remove(gone));
}

/// What the keys written in a scope held before, oldest write first.
pub type Journal<V> = Seq<(Vec<u8>, Option<V>)>;

/// The map as it was before the writes that the journal records: each
/// recorded key, latest write first, gets back what it held.
pub open spec fn rewound<V>(map: Map<Seq<u8>, V>, journal: Journal<V>) -> Map<Seq<u8>, V>
    decreases journal.len(),
{
    if journal.len() == 0 {
        map
    } else {
        rewound(put_under(map, journal.last().0@, journal.last().1), journal.drop_last())
    }
}

/// A write that is recorded with what its key held before can be undone:
/// rewinding from after the write, with the record, leads where rewinding
/// from before it, without, does.
proof fn lemma_recorded_write<V>(
    map: Map<Seq<u8>, V>,
    journal: Journal<V>,
    key: Vec<u8>,
    value: Option<V>,
)
    ensures
        rewound(put_under(map, key@, value), journal.push((key, held_under(map, key@)))) == rewound(
            map,
            journal,
        ),
{
    let record = (key, held_under(map, key@));
    let longer = journal.push(record);
    assert(longer.last() == record);
    assert(longer.drop_last() =~= journal);
    assert(put_under(put_under(map, key@, value), key@, record.1) =~= map);
}

/// Where `key` is listed, if it is.
fn position<V>(entries: &Vec<(Vec<u8>, V)>, key: &[u8]) -> (at: Option<usize>)
    ensures
        match at {
            Some(i) => i < entries@.len() && entries@[i as int].0@ == key@,
            None => !lists_key(entries@, key@),
        },
{
    let mut i: usize = 0;
    while i < entries.len()
        invariant
            0 <= i <= entries@.len(),
            forall|k: int| 0 <= k < i ==> (#[trigger] entries@[k]).0@ != key@,
        decreases entries@.len() - i,
    {
        if bytes_eq(entries[i].0.as_slice(), key) {
            return Some(i);
        }
        i = i + 1;
    }
    None
}

/// In a listing without repeated keys, the entry at a position is what the
/// map holds under its key.
proof fn lemma_entry_at<V>(entries: Seq<(Vec<u8>, V)>, at: int)
    requires
        keys_distinct(entries),
        0 <= at < entries.len(),
    ensures
        held_under(entries_map(entries), entries[at].0@) == Some(entries[at].1),
{
    let w = position_of(entries, entries[at].0@);
    if w != at {
        if w < at {
            assert(entries[w].0@ != entries[at].0@);
        } else {
            assert(entries[at].0@ != entries[w].0@);
        }
    }
}

/// Puts `value` under `key` in a listing, or takes away what is under it
/// where `value` is none, and hands out what was there before.
fn put_entry<V>(entries: &mut Vec<(Vec<u8>, V)>, key: &[u8], value: Option<V>) -> (previous: Option<V>)
    requires
        keys_distinct(old(entries)@),
    ensures
        keys_distinct(final(entries)@),
        entries_map(final(entries)@) == put_under(entries_map(old(entries)@), key@, value),
        previous == held_under(entries_map(old(entries)@), key@),
{
    let ghost before = entries_map(entries@);
    let previous = match position(entries, key) {
        Some(i) => {
            proof {
                lemma_entry_at(entries@, i as int);
                lemma_remove_entry(entries@, i as int);
            }
            Some(entries.remove(i).1)
        },
        None => {
            assert(entries_map(entries@) =~= before.remove(key@));
            None
        },
    };
    match value {
        Some(v) => {
            let entry = (copy_bytes(key), v);
            proof {
                lemma_push_entry(entries@, entry);
                assert(before.remove(key@).insert(key@, v) =~= before.insert(key@, v));
            }
            entries.push(entry);
        },
        None => {},
    }
    previous
}

/// A map from byte-string keys to values of type `V`, under a prefix of its
/// own. Writes can be made in a scope that is either kept or undone as a
/// whole.
pub struct StorageMap<V> {
    prefix: Vec<u8>,
    entries: Vec<(Vec<u8>, V)>,
    journal: Vec<(Vec<u8>, Option<V>)>,
    scope_open: bool,
}

impl<V> View for StorageMap<V> {
    type V = Map<Seq<u8>, V>;

    closed spec fn view(&self) -> Map<Seq<u8>, V> {
        entries_map(self.entries@)
    }
}

impl<V> StorageMap<V> {
    #[verifier::type_invariant]
    spec fn well_formed(self) -> bool {
        keys_distinct(self.entries@)
    }

    /// The prefix that every persisted key of this map starts with.
    pub closed spec fn prefix(&self) -> Seq<u8> {
        self.prefix@
    }

    /// Whether a scope is open.
    pub closed spec fn in_transaction(&self) -> bool {
        self.scope_open
    }

    /// What the map goes back to when the open scope is undone: what it
    /// held when the scope was opened. Without a scope, what it holds.
    pub closed spec fn saved(&self) -> Map<Seq<u8>, V> {
        if self.scope_open {
            rewound(self@, self.journal@)
        } else {
            self@
        }
    }

    /// An empty map for the item `item` of the module `module`.
    pub fn new(module: &[u8], item: &[u8]) -> (map: Self)
        ensures
            map@ == Map::<Seq<u8>, V>::empty(),
            map.prefix() == item_prefix(module@, item@),
            !map.in_transaction(),
            map.saved() == map@,
    {
        let first = twox_128(module);
        let second = twox_128(item);
        let mut prefix = copy_bytes(first.as_slice());
        append_bytes(&mut prefix, second.as_slice());
        let map = StorageMap { prefix, entries: Vec::new(), journal: Vec::new(), scope_open: false };
        assert(map@ =~= Map::<Seq<u8>, V>::empty());
        map
    }

    /// Opens a scope: what the map holds now is what it goes back to when
    /// the scope is undone. A scope that was open is kept first.
    pub fn begin_transaction(&mut self)
        ensures
            final(self)@ == old(self)@,
            final(self).saved() == old(self)@,
            final(self).in_transaction(),
            final(self).prefix() == old(self).prefix(),
    {
        proof {
            use_type_invariant(&*self);
        }
        self.journal = Vec::new();
        self.scope_open = true;
    }

    /// Keeps the writes of the open scope and closes it.
    pub fn commit_transaction(&mut self)
        ensures
            final(self)@ == old(self)@,
            final(self).saved() == old(self)@,
            !final(self).in_transaction(),
            final(self).prefix() == old(self).prefix(),
    {
        proof {
            use_type_invariant(&*self);
        }
        self.journal = Vec::new();
        self.scope_open = false;
    }

    /// Undoes the writes of the open scope and closes it.
    pub fn rollback_transaction(&mut self)
        ensures
            final(self)@ == old(self).saved(),
            final(self).saved() == old(self).saved(),
            !final(self).in_transaction(),
            final(self).prefix() == old(self).prefix(),
    {
        proof {
            use_type_invariant(&*self);
        }
        let ghost target = self.saved();
        let mut entries: Vec<(Vec<u8>, V)> = Vec::new();
        let mut journal: Vec<(Vec<u8>, Option<V>)> = Vec::new();
        core::mem::swap(&mut self.entries, &mut entries);
        if self.scope_open {
            core::mem::swap(&mut self.journal, &mut journal);
        }
        self.scope_open = false;
        while journal.len() > 0
            invariant
                keys_distinct(entries@),
                rewound(entries_map(entries@), journal@) == target,
            decreases journal.len(),
        {
            let ghost recorded = journal@;
            let record = journal.pop().unwrap();
            proof {
                assert(recorded.last() == record);
                assert(recorded.drop_last() =~= journal@);
            }
            let _ = put_entry(&mut entries, record.0.as_slice(), record.1);
        }
        self.entries = entries;
    }

    /// Records, where a scope is open, that `key` held `previous` before
    /// the write that has just been made.
    fn record(
        &mut self,
        key: &[u8],
        previous: Option<V>,
        Ghost(before): Ghost<Map<Seq<u8>, V>>,
        Ghost(value): Ghost<Option<V>>,
    )
        requires
            previous == held_under(before, key@),
            old(self)@ == put_under(before, key@, value),
        ensures
            final(self)@ == old(self)@,
            final(self).prefix() == old(self).prefix(),
            final(self).in_transaction() == old(self).in_transaction(),
            final(self).entries == old(self).entries,
            final(self).in_transaction() ==> final(self).saved() == rewound(
                before,
                old(self).journal@,
            ),
    {
        proof {
            use_type_invariant(&*self);
        }
        if self.scope_open {
            let mut journal: Vec<(Vec<u8>, Option<V>)> = Vec::new();
            core::mem::swap(&mut self.journal, &mut journal);
            let record = (copy_bytes(key), previous);
            proof {
                lemma_recorded_write(before, journal@, record.0, value);
            }
            journal.push(record);
            self.journal = journal;
        }
    }

    /// Whether there is an entry under `key`.
    pub fn contains_key(&self, key: &[u8]) -> (found: bool)
        ensures
            found == self@.contains_key(key@),
    {
        position(&self.entries, key).is_some()
    }

    /// The value under `key`, if there is one.
    pub fn get(&self, key: &[u8]) -> (value: Option<&V>)
        ensures
            value is Some == self@.contains_key(key@),
            value is Some ==> *value->Some_0 == self@[key@],
    {
        proof {
            use_type_invariant(self);
        }
        match position(&self.entries, key) {
            Some(i) => {
                proof {
                    lemma_entry_at(self.entries@, i as int);
                }
                Some(&self.entries[i].1)
            },
            None => None,
        }
    }

    /// Puts `value` under `key`, or takes away what is under it where
    /// `value` is none.
    fn put(&mut self, key: &[u8], value: Option<V>)
        ensures
            final(self)@ == put_under(old(self)@, key@, value),
            old(self).in_transaction() ==> final(self).saved() == old(self).saved(),
            !old(self).in_transaction() ==> final(self).saved() == final(self)@,
            final(self).in_transaction() == old(self).in_transaction(),
            final(self).prefix() == old(self).prefix(),
    {
        proof {
            use_type_invariant(&*self);
        }
        let ghost before = self@;
        let mut entries: Vec<(Vec<u8>, V)> = Vec::new();
        core::mem::swap(&mut self.entries, &mut entries);
        let previous = put_entry(&mut entries, key, value);
        self.entries = entries;
        self.record(key, previous, Ghost(before), Ghost(value));
    }

    /// Puts `value` under `key`, in place of what was there.
    pub fn insert(&mut self, key: &[u8], value: V)
        ensures
            final(self)@ == old(self)@.insert(key@, value),
            old(self).in_transaction() ==> final(self).saved() == old(self).saved(),
            !old(self).in_transaction() ==> final(self).saved() == final(self)@,
            final(self).in_transaction() == old(self).in_transaction(),
            final(self).prefix() == old(self).prefix(),
    {
        self.put(key, Some(value));
    }

    /// Takes the entry under `key` away, if there is one.
    pub fn remove(&mut self, key: &[u8])
        ensures
            final(self)@ == old(self)@.remove(key@),
            old(self).in_transaction() ==> final(self).saved() == old(self).saved(),
            !old(self).in_transaction() ==> final(self).saved() == final(self)@,
            final(self).in_transaction() == old(self).in_transaction(),
            final(self).prefix() == old(self).prefix(),
    {
        self.put(key, None);
    }

    /// The number of entries.
    pub fn len(&self) -> (n: usize)
        ensures
            n == self@.dom().len(),
            self@.dom().finite(),
    {
        proof {
            use_type_invariant(self);
            lemma_entries_count(self.entries@);
        }
        self.entries.len()
    }

    /// The key under which the entry `key` is persisted.
    pub fn storage_key(&self, key: &[u8]) -> (full: Vec<u8>)
        ensures
            full@ == hashed_key(self.prefix(), key@),
    {
        let digest = blake2_128(key);
        let mut full = copy_bytes(self.prefix.as_slice());
        append_bytes(&mut full, digest.as_slice());
        append_bytes(&mut full, key);
        full
    }
}

impl<V: Copy> StorageMap<V> {
    /// Reads what is under `key`, hands it to `f`, and puts what `f` returns
    /// in its place: a value, or nothing.
    pub fn mutate<F: FnOnce(Option<V>) -> Option<V>>(&mut self, key: &[u8], f: F)
        requires
            f.requires((held_under(old(self)@, key@),)),
        ensures
            exists|out: Option<V>|
                f.ensures((held_under(old(self)@, key@),), out) && final(self)@ == put_under(
                    old(self)@,
                    key@,
                    out,
                ),
            old(self).in_transaction() ==> final(self).saved() == old(self).saved(),
            !old(self).in_transaction() ==> final(self).saved() == final(self)@,
            final(self).in_transaction() == old(self).in_transaction(),
            final(self).prefix() == old(self).prefix(),
    {
        let found = match self.get(key) {
            Some(value) => Some(*value),
            None => None,
        };
        let out = f(found);
        self.put(key, out);
        assert(f.ensures((held_under(old(self)@, key@),), out) && self@ == put_under(
            old(self)@,
            key@,
            out,
        ));
    }

    /// Hands out every entry and leaves the map empty.
    pub fn drain(&mut self) -> (listing: Vec<(Vec<u8>, V)>)
        ensures
            final(self)@ == Map::<Seq<u8>, V>::empty(),
            old(self).in_transaction() ==> final(self).saved() == old(self).saved(),
            !old(self).in_transaction() ==> final(self).saved() == final(self)@,
            final(self).in_transaction() == old(self).in_transaction(),
            final(self).prefix() == old(self).prefix(),
            keys_distinct(listing@),
            entries_map(listing@) == old(self)@,
    {
        proof {
            use_type_invariant(&*self);
        }
        let mut listing: Vec<(Vec<u8>, V)> = Vec::new();
        core::mem::swap(&mut self.entries, &mut listing);
        assert(self@ =~= Map::<Seq<u8>, V>::empty());
        if self.scope_open {
            let mut journal: Vec<(Vec<u8>, Option<V>)> = Vec::new();
            core::mem::swap(&mut self.journal, &mut journal);
            let ghost target = rewound(entries_map(listing@), journal@);
            let mut i: usize = 0;
            assert(listing@.skip(0) =~= listing@);
            while i < listing.len()
                invariant
                    0 <= i <= listing@.len(),
                    keys_distinct(listing@),
                    rewound(entries_map(listing@.skip(i as int)), journal@) == target,
                decreases listing@.len() - i,
            {
                let ghost rest = listing@.skip(i as int);
                let record = (copy_bytes(listing[i].0.as_slice()), Some(listing[i].1));
                proof {
                    assert(rest[0] == listing@[i as int]);
                    assert(keys_distinct(rest)) by {
                        assert forall|a: int, b: int| 0 <= a < b < rest.len() implies (
                        #[trigger] rest[a]).0@ != (#[trigger] rest[b]).0@ by {
                            assert(rest[a] == listing@[i + a] && rest[b] == listing@[i + b]);
                        }
                    }
                    lemma_entry_at(rest, 0);
                    lemma_remove_entry(rest, 0);
                    assert(rest.remove(0) =~= listing@.skip(i + 1));
                    lemma_recorded_write(entries_map(rest), journal@, record.0, None);
                }
                journal.push(record);
                i = i + 1;
            }
            assert(listing@.skip(i as int) =~= Seq::<(Vec<u8>, V)>::empty());
            assert(entries_map(listing@.skip(i as int)) =~= Map::<Seq<u8>, V>::empty());
            self.journal = journal;
        }
        listing
    }
}

/// A listing without repeated keys holds as many entries as its map has
/// keys.
proof fn lemma_entries_count<V>(entries: Seq<(Vec<u8>, V)>)
    requires
        keys_distinct(entries),
    ensures
        entries_map(entries).dom().finite(),
        entries_map(entries).dom().len() == entries.len(),
    decreases entries.len(),
{
    if entries.len() == 0 {
        assert(entries_map(entries).dom() =~= Set::<Seq<u8>>::empty());
    } else {
        let last = entries.last();
        let rest = entries.drop_last();
        assert forall|i: int, j: int| 0 <= i < j < rest.len() implies (#[trigger] rest[i]).0@ != (
        #[trigger] rest[j]).0@ by {
            assert(rest[i] == entries[i] && rest[j] == entries[j]);
        }
        lemma_entries_count(rest);
        if lists_key(rest, last.0@) {
            let i = position_of(rest, last.0@);
            assert(entries[i].0@ != entries[entries.len() - 1].0@);
        }
        assert(entries =~= rest.push(last));
        lemma_push_entry(rest, last);
        assert(entries_map(entries).dom() =~= entries_map(rest).dom().insert(last.0@));
    }
}

/// A single cell holding a value of type `V`, under a prefix of its own.
/// Writes can be made in a scope that is either kept or undone as a whole.
pub struct StorageValue<V> {
    prefix: Vec<u8>,
    cell: Option<V>,
    before: Option<Option<V>>,
    scope_open: bool,
}

impl<V> View for StorageValue<V> {
    type V = Option<V>;

    closed spec fn view(&self) -> Option<V> {
        self.cell
    }
}

impl<V> StorageValue<V> {
    /// The key under which the cell is persisted.
    pub closed spec fn prefix(&self) -> Seq<u8> {
        self.prefix@
    }

    /// Whether a scope is open.
    pub closed spec fn in_transaction(&self) -> bool {
        self.scope_open
    }

    /// What the cell goes back to when the open scope is undone: what it
    /// held when the scope was opened. Without a scope, what it holds.
    pub closed spec fn saved(&self) -> Option<V> {
        if self.scope_open && self.before is Some {
            self.before->Some_0
        } else {
            self.cell
        }
    }

    /// An empty cell for the item `item` of the module `module`.
    pub fn new(module: &[u8], item: &[u8]) -> (cell: Self)
        ensures
            cell@ is None,
            cell.prefix() == item_prefix(module@, item@),
            !cell.in_transaction(),
            cell.saved() == cell@,
    {
        let first = twox_128(module);
        let second = twox_128(item);
        let mut prefix = copy_bytes(first.as_slice());
        append_bytes(&mut prefix, second.as_slice());
        StorageValue { prefix, cell: None, before: None, scope_open: false }
    }

    /// Opens a scope: what the cell holds now is what it goes back to when
    /// the scope is undone. A scope that was open is kept first.
    pub fn begin_transaction(&mut self)
        ensures
            final(self)@ == old(self)@,
            final(self).saved() == old(self)@,
            final(self).in_transaction(),
            final(self).prefix() == old(self).prefix(),
    {
        self.before = None;
        self.scope_open = true;
    }

    /// Keeps the writes of the open scope and closes it.
    pub fn commit_transaction(&mut self)
        ensures
            final(self)@ == old(self)@,
            final(self).saved() == old(self)@,
            !final(self).in_transaction(),
            final(self).prefix() == old(self).prefix(),
    {
        self.before = None;
        self.scope_open = false;
    }

    /// Undoes the writes of the open scope and closes it.
    pub fn rollback_transaction(&mut self)
        ensures
            final(self)@ == old(self).saved(),
            final(self).saved() == old(self).saved(),
            !final(self).in_transaction(),
            final(self).prefix() == old(self).prefix(),
    {
        let mut before: Option<Option<V>> = None;
        core::mem::swap(&mut self.before, &mut before);
        if self.scope_open {
            match before {
                Some(held) => {
                    self.cell = held;
                },
                None => {},
            }
        }
        self.scope_open = false;
    }

    /// What the cell holds, if anything.
    pub fn get(&self) -> (value: Option<&V>)
        ensures
            value is Some == self@ is Some,
            value is Some ==> *value->Some_0 == self@->Some_0,
    {
        self.cell.as_ref()
    }

    /// Sets the cell to `value`, and keeps, where a scope is open, what it
    /// held when the scope was opened.
    fn set(&mut self, value: Option<V>)
        ensures
            final(self)@ == value,
            old(self).in_transaction() ==> final(self).saved() == old(self).saved(),
            !old(self).in_transaction() ==> final(self).saved() == final(self)@,
            final(self).in_transaction() == old(self).in_transaction(),
            final(self).prefix() == old(self).prefix(),
    {
        let mut held = value;
        core::mem::swap(&mut self.cell, &mut held);
        if self.scope_open && self.before.is_none() {
            self.before = Some(held);
        }
    }

    /// Fills the cell with `value`.
    pub fn put(&mut self, value: V)
        ensures
            final(self)@ == Some(value),
            old(self).in_transaction() ==> final(self).saved() == old(self).saved(),
            !old(self).in_transaction() ==> final(self).saved() == final(self)@,
            final(self).in_transaction() == old(self).in_transaction(),
            final(self).prefix() == old(self).prefix(),
    {
        self.set(Some(value));
    }

    /// Empties the cell.
    pub fn kill(&mut self)
        ensures
            final(self)@ is None,
            old(self).in_transaction() ==> final(self).saved() == old(self).saved(),
            !old(self).in_transaction() ==> final(self).saved() == final(self)@,
            final(self).in_transaction() == old(self).in_transaction(),
            final(self).prefix() == old(self).prefix(),
    {
        self.set(None);
    }

    /// The key under which the cell is persisted.
    pub fn storage_key(&self) -> (full: Vec<u8>)
        ensures
            full@ == self.prefix(),
    {
        copy_bytes(self.prefix.as_slice())
    }
}

/// A value that can serve as the key of a typed map: it has a byte form of
/// its own, from which it can be read back.
pub trait StorageKey: Sized + Copy {
    /// The bytes that stand for the key.
    spec fn key_bytes(self) -> Seq<u8>;

    /// Different keys have different bytes.
    proof fn lemma_key_bytes_injective(a: Self, b: Self)
        requires
            a.key_bytes() == b.key_bytes(),
        ensures
            a == b,
    ;

    /// The bytes that stand for the key.
    fn to_key(&self) -> (out: Vec<u8>)
        ensures
            out@ == self.key_bytes(),
    ;

    /// The key that the bytes stand for, if they stand for one.
    fn from_key(bytes: &[u8]) -> (key: Option<Self>)
        ensures
            match key {
                Some(k) => k.key_bytes() == bytes@,
                None => forall|k: Self| k.key_bytes() != bytes@,
            },
    ;
}

impl StorageKey for u32 {
    open spec fn key_bytes(self) -> Seq<u8> {
        spec_u32_to_le_bytes(self)
    }

    proof fn lemma_key_bytes_injective(a: Self, b: Self) {
        lemma_auto_spec_u32_to_from_le_bytes();
        assert(spec_u32_to_le_bytes(a).len() == 4 && spec_u32_to_le_bytes(b).len() == 4);
        assert(spec_u32_from_le_bytes(spec_u32_to_le_bytes(a)) == a);
        assert(spec_u32_from_le_bytes(spec_u32_to_le_bytes(b)) == b);
    }

    fn to_key(&self) -> (out: Vec<u8>) {
        u32_to_le_bytes(*self)
    }

    fn from_key(bytes: &[u8]) -> (key: Option<Self>) {
        proof {
            lemma_auto_spec_u32_to_from_le_bytes();
        }
        if bytes.len() == 4 {
            let k = u32_from_le_bytes(bytes);
            assert(spec_u32_to_le_bytes(spec_u32_from_le_bytes(bytes@)) == bytes@);
            Some(k)
        } else {
            assert forall|k: u32| k.key_bytes() != bytes@ by {
                assert(spec_u32_to_le_bytes(k).len() == 4);
            }
            None
        }
    }
}

impl StorageKey for u64 {
    open spec fn key_bytes(self) -> Seq<u8> {
        spec_u64_to_le_bytes(self)
    }

    proof fn lemma_key_bytes_injective(a: Self, b: Self) {
        lemma_auto_spec_u64_to_from_le_bytes();
        assert(spec_u64_to_le_bytes(a).len() == 8 && spec_u64_to_le_bytes(b).len() == 8);
        assert(spec_u64_from_le_bytes(spec_u64_to_le_bytes(a)) == a);
        assert(spec_u64_from_le_bytes(spec_u64_to_le_bytes(b)) == b);
    }

    fn to_key(&self) -> (out: Vec<u8>) {
        encode_u64(*self)
    }

    fn from_key(bytes: &[u8]) -> (key: Option<Self>) {
        proof {
            lemma_auto_spec_u64_to_from_le_bytes();
        }
        if bytes.len() == 8 {
            let k = u64_from_le_bytes(bytes);
            assert(spec_u64_to_le_bytes(spec_u64_from_le_bytes(bytes@)) == bytes@);
            Some(k)
        } else {
            assert forall|k: u64| k.key_bytes() != bytes@ by {
                assert(spec_u64_to_le_bytes(k).len() == 8);
            }
            None
        }
    }
}

/// No key is listed twice.
pub open spec fn pairs_distinct<K, V>(pairs: Seq<(K, V)>) -> bool {
    forall|i: int, j: int|
        0 <= i < j < pairs.len() ==> (#[trigger] pairs[i]).0 != (#[trigger] pairs[j]).0
}

/// The entries of a raw map whose keys stand for keys of type `K`, under
/// those keys.
pub open spec fn keyed<K: StorageKey, V>(raw: Map<Seq<u8>, V>) -> Map<K, V> {
    Map::new(|k: K| raw.contains_key(k.key_bytes()), |k: K| raw[k.key_bytes()])
}

/// An insertion into the raw map under a key's bytes is an insertion under
/// the key.
pub proof fn lemma_keyed_insert<K: StorageKey, V>(raw: Map<Seq<u8>, V>, key: K, value: V)
    ensures
        keyed::<K, V>(raw.insert(key.key_bytes(), value)) == keyed::<K, V>(raw).insert(key, value),
{
    let after = raw.insert(key.key_bytes(), value);
    assert forall|k: K| #[trigger]
        keyed::<K, V>(after).contains_key(k) == keyed::<K, V>(raw).insert(key, value).contains_key(
            k,
        ) by {
        if k.key_bytes() == key.key_bytes() {
            K::lemma_key_bytes_injective(k, key);
        }
    }
    assert forall|k: K| keyed::<K, V>(after).contains_key(k) implies #[trigger] keyed::<K, V>(
        after,
    )[k] == keyed::<K, V>(raw).insert(key, value)[k] by {
        if k.key_bytes() == key.key_bytes() {
            K::lemma_key_bytes_injective(k, key);
        }
    }
    assert(keyed::<K, V>(after) =~= keyed::<K, V>(raw).insert(key, value));
}

/// A removal from the raw map under a key's bytes is a removal of the key.
pub proof fn lemma_keyed_remove<K: StorageKey, V>(raw: Map<Seq<u8>, V>, key: K)
    ensures
        keyed::<K, V>(raw.remove(key.key_bytes())) == keyed::<K, V>(raw).remove(key),
{
    let after = raw.remove(key.key_bytes());
    assert forall|k: K| #[trigger]
        keyed::<K, V>(after).contains_key(k) == keyed::<K, V>(raw).remove(key).contains_key(
            k,
        ) by {
        if k.key_bytes() == key.key_bytes() {
            K::lemma_key_bytes_injective(k, key);
        }
    }
    assert(keyed::<K, V>(after) =~= keyed::<K, V>(raw).remove(key));
}

/// Two keys of a typed map are persisted under different keys.
pub proof fn lemma_typed_keys_keep_apart<K: StorageKey>(prefix: Seq<u8>, a: K, b: K)
    requires
        hashed_key(prefix, a.key_bytes()) == hashed_key(prefix, b.key_bytes()),
    ensures
        a == b,
{
    lemma_hashed_key_injective(prefix, a.key_bytes(), b.key_bytes());
    K::lemma_key_bytes_injective(a, b);
}

/// The map that a listing of typed entries stands for.
pub open spec fn pairs_map<K, V>(pairs: Seq<(K, V)>) -> Map<K, V> {
    Map::new(
        |k: K| exists|i: int| 0 <= i < pairs.len() && (#[trigger] pairs[i]).0 == k,
        |k: K| pairs[choose|i: int| 0 <= i < pairs.len() && (#[trigger] pairs[i]).0 == k].1,
    )
}

/// In a listing without repeated keys, each entry is what the map holds
/// under its key.
pub proof fn lemma_pairs_map_at<K, V>(pairs: Seq<(K, V)>, at: int)
    requires
        pairs_distinct(pairs),
        0 <= at < pairs.len(),
    ensures
        pairs_map(pairs).contains_key(pairs[at].0),
        pairs_map(pairs)[pairs[at].0] == pairs[at].1,
{
    let k = pairs[at].0;
    let i = choose|i: int| 0 <= i < pairs.len() && (#[trigger] pairs[i]).0 == k;
    if i != at {
        if i < at {
            assert(pairs[i].0 != pairs[at].0);
        } else {
            assert(pairs[at].0 != pairs[i].0);
        }
    }
}

/// A map from keys of type `K` to values of type `V`, under a prefix of its
/// own.
pub struct TypedMap<K, V> {
    raw: StorageMap<V>,
    marker: core::marker::PhantomData<K>,
}

impl<K: StorageKey, V> View for TypedMap<K, V> {
    type V = Map<K, V>;

    closed spec fn view(&self) -> Map<K, V> {
        keyed::<K, V>(self.raw@)
    }
}

impl<K: StorageKey, V> TypedMap<K, V> {
    /// The prefix that every persisted key of this map starts with.
    pub closed spec fn prefix(&self) -> Seq<u8> {
        self.raw.prefix()
    }

    /// Whether a scope is open.
    pub closed spec fn in_transaction(&self) -> bool {
        self.raw.in_transaction()
    }

    /// What the map goes back to when the open scope is undone: what it
    /// held when the scope was opened. Without a scope, what it holds.
    pub closed spec fn saved(&self) -> Map<K, V> {
        keyed::<K, V>(self.raw.saved())
    }

    /// An empty map for the item `item` of the module `module`.
    pub fn new(module: &[u8], item: &[u8]) -> (map: Self)
        ensures
            map@ == Map::<K, V>::empty(),
            map.prefix() == item_prefix(module@, item@),
            !map.in_transaction(),
            map.saved() == map@,
    {
        let map = TypedMap { raw: StorageMap::new(module, item), marker: core::marker::PhantomData };
        assert(map@ =~= Map::<K, V>::empty());
        map
    }

    /// Opens a scope: what the map holds now is what it goes back to when
    /// the scope is undone. A scope that was open is kept first.
    pub fn begin_transaction(&mut self)
        ensures
            final(self)@ == old(self)@,
            final(self).saved() == old(self)@,
            final(self).in_transaction(),
            final(self).prefix() == old(self).prefix(),
    {
        self.raw.begin_transaction();
    }

    /// Keeps the writes of the open scope and closes it.
    pub fn commit_transaction(&mut self)
        ensures
            final(self)@ == old(self)@,
            final(self).saved() == old(self)@,
            !final(self).in_transaction(),
            final(self).prefix() == old(self).prefix(),
    {
        self.raw.commit_transaction();
    }

    /// Undoes the writes of the open scope and closes it.
    pub fn rollback_transaction(&mut self)
        ensures
            final(self)@ == old(self).saved(),
            final(self).saved() == old(self).saved(),
            !final(self).in_transaction(),
            final(self).prefix() == old(self).prefix(),
    {
        self.raw.rollback_transaction();
    }

    /// Whether there is an entry under `key`.
    pub fn contains_key(&self, key: K) -> (found: bool)
        ensures
            found == self@.contains_key(key),
    {
        let bytes = key.to_key();
        self.raw.contains_key(bytes.as_slice())
    }

    /// The value under `key`, if there is one.
    pub fn get(&self, key: K) -> (value: Option<&V>)
        ensures
            value is Some == self@.contains_key(key),
            value is Some ==> *value->Some_0 == self@[key],
    {
        let bytes = key.to_key();
        self.raw.get(bytes.as_slice())
    }

    /// Puts `value` under `key`, in place of what was there.
    pub fn insert(&mut self, key: K, value: V)
        ensures
            final(self)@ == old(self)@.insert(key, value),
            old(self).in_transaction() ==> final(self).saved() == old(self).saved(),
            !old(self).in_transaction() ==> final(self).saved() == final(self)@,
            final(self).in_transaction() == old(self).in_transaction(),
            final(self).prefix() == old(self).prefix(),
    {
        let bytes = key.to_key();
        proof {
            lemma_keyed_insert::<K, V>(self.raw@, key, value);
        }
        self.raw.insert(bytes.as_slice(), value);
    }

    /// Takes the entry under `key` away, if there is one.
    pub fn remove(&mut self, key: K)
        ensures
            final(self)@ == old(self)@.remove(key),
            old(self).in_transaction() ==> final(self).saved() == old(self).saved(),
            !old(self).in_transaction() ==> final(self).saved() == final(self)@,
            final(self).in_transaction() == old(self).in_transaction(),
            final(self).prefix() == old(self).prefix(),
    {
        let bytes = key.to_key();
        proof {
            lemma_keyed_remove::<K, V>(self.raw@, key);
        }
        self.raw.remove(bytes.as_slice());
    }

    /// The key under which the entry `key` is persisted.
    pub fn storage_key(&self, key: K) -> (full: Vec<u8>)
        ensures
            full@ == hashed_key(self.prefix(), key.key_bytes()),
    {
        let bytes = key.to_key();
        self.raw.storage_key(bytes.as_slice())
    }
}

impl<K: StorageKey, V: Copy> TypedMap<K, V> {
    /// Reads what is under `key`, hands it to `f`, and puts what `f` returns
    /// in its place: a value, or nothing.
    pub fn mutate<F: FnOnce(Option<V>) -> Option<V>>(&mut self, key: K, f: F)
        requires
            f.requires((held_under(old(self)@, key),)),
        ensures
            exists|out: Option<V>|
                f.ensures((held_under(old(self)@, key),), out) && final(self)@ == put_under(
                    old(self)@,
                    key,
                    out,
                ),
            old(self).in_transaction() ==> final(self).saved() == old(self).saved(),
            !old(self).in_transaction() ==> final(self).saved() == final(self)@,
            final(self).in_transaction() == old(self).in_transaction(),
            final(self).prefix() == old(self).prefix(),
    {
        let bytes = key.to_key();
        let ghost raw = self.raw@;
        self.raw.mutate(bytes.as_slice(), f);
        proof {
            let out = choose|out: Option<V>|
                f.ensures((held_under(raw, key.key_bytes()),), out) && self.raw@ == put_under(
                    raw,
                    key.key_bytes(),
                    out,
                );
            match out {
                Some(v) => {
                    lemma_keyed_insert::<K, V>(raw, key, v);
                },
                None => {
                    lemma_keyed_remove::<K, V>(raw, key);
                },
            }
            assert(f.ensures((held_under(old(self)@, key),), out) && self@ == put_under(
                old(self)@,
                key,
                out,
            ));
        }
    }

    /// Hands out every entry, each once, and leaves the map empty.
    pub fn drain(&mut self) -> (listing: Vec<(K, V)>)
        ensures
            final(self)@ == Map::<K, V>::empty(),
            old(self).in_transaction() ==> final(self).saved() == old(self).saved(),
            !old(self).in_transaction() ==> final(self).saved() == final(self)@,
            final(self).in_transaction() == old(self).in_transaction(),
            final(self).prefix() == old(self).prefix(),
            pairs_distinct(listing@),
            pairs_map(listing@) == old(self)@,
    {
        let ghost before = self.raw@;
        let mut raw = self.raw.drain();
        assert(self@ =~= Map::<K, V>::empty());
        let mut listing: Vec<(K, V)> = Vec::new();
        let ghost total = raw@;
        let ghost mut done: int = 0;
        while raw.len() > 0
            invariant
                keys_distinct(total),
                entries_map(total) == before,
                0 <= done <= total.len(),
                raw@ == total.take(total.len() - done),
                pairs_distinct(listing@),
                forall|i: int|
                    0 <= i < listing@.len() ==> exists|j: int|
                        total.len() - done <= j < total.len() && (#[trigger] listing@[i]).0.key_bytes()
                            == total[j].0@ && listing@[i].1 == total[j].1,
                forall|j: int|
                    total.len() - done <= j < total.len() ==> (forall|k: K|
                        k.key_bytes() != (#[trigger] total[j]).0@) || exists|i: int|
                        0 <= i < listing@.len() && (#[trigger] listing@[i]).0.key_bytes()
                            == total[j].0@,
            decreases raw.len(),
        {
            let ghost at = raw@.len() - 1;
            let entry = raw.pop().unwrap();
            proof {
                assert(entry == total[at]);
                assert(raw@ =~= total.take(total.len() - (done + 1)));
            }
            let ghost listed = listing@;
            match K::from_key(entry.0.as_slice()) {
                Some(key) => {
                    listing.push((key, entry.1));
                    proof {
                        assert forall|i: int, j: int|
                            0 <= i < j < listing@.len() implies (#[trigger] listing@[i]).0 != (
                        #[trigger] listing@[j]).0 by {
                            if j == listed.len() {
                                let w = choose|w: int|
                                    total.len() - done <= w < total.len() && listed[i].0.key_bytes()
                                        == total[w].0@ && listed[i].1 == total[w].1;
                                assert(total[at].0@ != total[w].0@);
                            } else {
                                assert(listing@[i] == listed[i] && listing@[j] == listed[j]);
                            }
                        }
                        assert forall|i: int| 0 <= i < listing@.len() implies exists|j: int|
                            total.len() - (done + 1) <= j < total.len() && (
                            #[trigger] listing@[i]).0.key_bytes() == total[j].0@ && listing@[i].1
                                == total[j].1 by {
                            if i < listed.len() {
                                assert(listing@[i] == listed[i]);
                                let w = choose|w: int|
                                    total.len() - done <= w < total.len() && listed[i].0.key_bytes()
                                        == total[w].0@ && listed[i].1 == total[w].1;
                                assert(total.len() - (done + 1) <= w < total.len());
                            } else {
                                assert(listing@[i].0.key_bytes() == total[at].0@);
                            }
                        }
                        assert forall|j: int|
                            total.len() - (done + 1) <= j < total.len() implies (forall|k: K|
                            k.key_bytes() != (#[trigger] total[j]).0@) || exists|i: int|
                            0 <= i < listing@.len() && (#[trigger] listing@[i]).0.key_bytes()
                                == total[j].0@ by {
                            if j == at {
                                assert(listing@[listed.len() as int].0.key_bytes() == total[j].0@);
                            } else if !(forall|k: K| k.key_bytes() != total[j].0@) {
                                let i = choose|i: int|
                                    0 <= i < listed.len() && (#[trigger] listed[i]).0.key_bytes()
                                        == total[j].0@;
                                assert(listing@[i] == listed[i]);
                            }
                        }
                    }
                },
                None => {},
            }
            proof {
                done = done + 1;
            }
        }
        proof {
            assert(done == total.len());
            let made = pairs_map(listing@);
            let want = keyed::<K, V>(before);
            assert forall|k: K| #[trigger] made.contains_key(k) == want.contains_key(k) by {
                if made.contains_key(k) {
                    let i = choose|i: int| 0 <= i < listing@.len() && (#[trigger] listing@[i]).0 == k;
                    let j = choose|j: int|
                        0 <= j < total.len() && listing@[i].0.key_bytes() == total[j].0@
                            && listing@[i].1 == total[j].1;
                    assert(lists_key(total, k.key_bytes()));
                }
                if want.contains_key(k) {
                    let j = position_of(total, k.key_bytes());
                    assert(total[j].0@ == k.key_bytes());
                    let i = choose|i: int|
                        0 <= i < listing@.len() && (#[trigger] listing@[i]).0.key_bytes()
                            == total[j].0@;
                    K::lemma_key_bytes_injective(listing@[i].0, k);
                }
            }
            assert forall|k: K| made.contains_key(k) implies #[trigger] made[k] == want[k] by {
                let i = choose|i: int| 0 <= i < listing@.len() && (#[trigger] listing@[i]).0 == k;
                let j = choose|j: int|
                    0 <= j < total.len() && listing@[i].0.key_bytes() == total[j].0@
                        && listing@[i].1 == total[j].1;
                let w = position_of(total, k.key_bytes());
                if j != w {
                    if j < w {
                        assert(total[j].0@ != total[w].0@);
                    } else {
                        assert(total[w].0@ != total[j].0@);
                    }
                }
            }
            assert(made =~= want);
        }
        listing
    }
}

} // verus!
