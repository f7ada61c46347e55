//! A snapshot of a catalog: records keyed by identifier, each key held once,
//! in the order in which the keys first came.

use vstd::prelude::*;

verus! {

/// Keys with their records, in order.
pub type Entries<T> = Seq<(Seq<char>, T)>;

/// No key occurs twice.
pub open spec fn distinct_keys<T>(entries: Entries<T>) -> bool {
    forall|i: int, j: int| 0 <= i < j < entries.len() ==> entries[i].0 != entries[j].0
}

/// Where a key stands: the index of the last entry that has it.
pub open spec fn position<T>(entries: Entries<T>, key: Seq<char>) -> Option<int>
    decreases entries.len(),
{
    if entries.len() == 0 {
        None
    } else if entries.last().0 == key {
        Some(entries.len() - 1)
    } else {
        position(entries.drop_last(), key)
    }
}

/// The entries after a record is stored under a key: the record takes the
/// place of the one that the key had, or comes last under a new key.
pub open spec fn inserted<T>(entries: Entries<T>, key: Seq<char>, record: T) -> Entries<T> {
    match position(entries, key) {
        Some(i) => entries.update(i, (key, record)),
        None => entries.push((key, record)),
    }
}

/// The entries after a list of keyed records is stored, one after the other.
pub open spec fn collected<T>(pairs: Entries<T>) -> Entries<T>
    decreases pairs.len(),
{
    if pairs.len() == 0 {
        Seq::empty()
    } else {
        inserted(collected(pairs.drop_last()), pairs.last().0, pairs.last().1)
    }
}

/// The mapping that a list of keyed records stands for: each is inserted in
/// turn, so a later record replaces an earlier one of the same key.
pub open spec fn map_of<T>(pairs: Entries<T>) -> Map<Seq<char>, T>
    decreases pairs.len(),
{
    if pairs.len() == 0 {
        Map::empty()
    } else {
        map_of(pairs.drop_last()).insert(pairs.last().0, pairs.last().1)
    }
}

/// What `position` finds: the last entry of that key, or that there is none.
pub proof fn lemma_position<T>(entries: Entries<T>, key: Seq<char>)
    ensures
        match position(entries, key) {
            Some(i) => {
                &&& 0 <= i < entries.len()
                &&& entries[i].0 == key
                &&& forall|j: int| i < j < entries.len() ==> entries[j].0 != key
            },
            None => forall|j: int| 0 <= j < entries.len() ==> entries[j].0 != key,
        },
    decreases entries.len(),
{
    if entries.len() > 0 && entries.last().0 != key {
        let front = entries.drop_last();
        lemma_position(front, key);
        assert(forall|j: int| 0 <= j < front.len() ==> front[j] == entries[j]);
    }
}

/// The keys of the mapping are the keys that occur, and each has the record
/// of its last occurrence.
pub proof fn lemma_map_of<T>(pairs: Entries<T>, key: Seq<char>)
    ensures
        match position(pairs, key) {
            Some(i) => map_of(pairs).dom().contains(key) && map_of(pairs)[key] == pairs[i].1,
            None => !map_of(pairs).dom().contains(key),
        },
    decreases pairs.len(),
{
    if pairs.len() > 0 {
        let front = pairs.drop_last();
        lemma_map_of(front, key);
        lemma_position(front, key);
        assert(forall|j: int| 0 <= j < front.len() ==> front[j] == pairs[j]);
    }
}

/// Storing a record keeps every key single.
pub proof fn lemma_inserted_distinct<T>(entries: Entries<T>, key: Seq<char>, record: T)
    requires
        distinct_keys(entries),
    ensures
        distinct_keys(inserted(entries, key, record)),
{
    lemma_position(entries, key);
}

/// Storing a record is insertion into the mapping.
pub proof fn lemma_inserted_map<T>(entries: Entries<T>, key: Seq<char>, record: T)
    ensures
        map_of(inserted(entries, key, record)) == map_of(entries).insert(key, record),
    decreases entries.len(),
{
    match position(entries, key) {
        None => {
            assert(inserted(entries, key, record).drop_last() =~= entries);
        },
        Some(i) => {
            lemma_position(entries, key);
            let after = entries.update(i, (key, record));
            if i == entries.len() - 1 {
                assert(after.drop_last() =~= entries.drop_last());
                assert(map_of(after) =~= map_of(entries).insert(key, record));
            } else {
                lemma_inserted_map(entries.drop_last(), key, record);
                assert(position(entries.drop_last(), key) == Some(i));
                assert(after.drop_last() =~= entries.drop_last().update(i, (key, record)));
                assert(map_of(after) =~= map_of(entries).insert(key, record));
            }
        },
    }
}

/// Collecting keeps every key single and stands for the same mapping as the
/// list it was collected from.
pub proof fn lemma_collected<T>(pairs: Entries<T>)
    ensures
        distinct_keys(collected(pairs)),
        map_of(collected(pairs)) == map_of(pairs),
    decreases pairs.len(),
{
    if pairs.len() > 0 {
        let before = collected(pairs.drop_last());
        lemma_collected(pairs.drop_last());
        lemma_inserted_distinct(before, pairs.last().0, pairs.last().1);
        lemma_inserted_map(before, pairs.last().0, pairs.last().1);
    }
}

/// With every key single, the mapping has as many keys as there are entries.
pub proof fn lemma_distinct_count<T>(entries: Entries<T>)
    requires
        distinct_keys(entries),
    ensures
        map_of(entries).dom().finite(),
        map_of(entries).dom().len() == entries.len(),
    decreases entries.len(),
{
    if entries.len() > 0 {
        lemma_distinct_count(entries.drop_last());
        lemma_map_of(entries.drop_last(), entries.last().0);
        lemma_position(entries.drop_last(), entries.last().0);
    }
}

/// The entries with each record replaced by what a function makes of it.
pub open spec fn mapped<T, U>(entries: Entries<T>, f: spec_fn(T) -> U) -> Entries<U> {
    Seq::new(entries.len(), |i: int| (entries[i].0, f(entries[i].1)))
}

/// Replacing the records leaves every key in its place.
pub proof fn lemma_mapped_position<T, U>(entries: Entries<T>, f: spec_fn(T) -> U, key: Seq<char>)
    ensures
        position(mapped(entries, f), key) == position(entries, key),
    decreases entries.len(),
{
    if entries.len() > 0 {
        assert(mapped(entries, f).drop_last() =~= mapped(entries.drop_last(), f));
        lemma_mapped_position(entries.drop_last(), f, key);
    }
}

/// Storing a record and then replacing the records is replacing them and then
/// storing what the function makes of the record.
pub proof fn lemma_mapped_inserted<T, U>(
    entries: Entries<T>,
    f: spec_fn(T) -> U,
    key: Seq<char>,
    record: T,
)
    ensures
        mapped(inserted(entries, key, record), f) == inserted(mapped(entries, f), key, f(record)),
{
    lemma_mapped_position(entries, f, key);
    lemma_position(entries, key);
    assert(mapped(inserted(entries, key, record), f) =~= inserted(
        mapped(entries, f),
        key,
        f(record),
    ));
}

/// Collecting and then replacing the records is replacing them and then
/// collecting.
pub proof fn lemma_mapped_collected<T, U>(pairs: Entries<T>, f: spec_fn(T) -> U)
    ensures
        mapped(collected(pairs), f) == collected(mapped(pairs, f)),
    decreases pairs.len(),
{
    if pairs.len() == 0 {
        assert(mapped(collected(pairs), f) =~= collected(mapped(pairs, f)));
    } else {
        assert(mapped(pairs, f).drop_last() =~= mapped(pairs.drop_last(), f));
        lemma_mapped_collected(pairs.drop_last(), f);
        lemma_mapped_inserted(collected(pairs.drop_last()), f, pairs.last().0, pairs.last().1);
    }
}

/// Collecting one record more is storing it into what was collected before.
pub proof fn lemma_collected_next<T>(pairs: Entries<T>, i: int)
    requires
        0 <= i < pairs.len(),
    ensures
        collected(pairs.take(i + 1)) == inserted(collected(pairs.take(i)), pairs[i].0, pairs[i].1),
{
    assert(pairs.take(i + 1).drop_last() =~= pairs.take(i));
}

/// Entries whose keys are single are what collecting them gives.
pub proof fn lemma_collected_distinct<T>(entries: Entries<T>)
    requires
        distinct_keys(entries),
    ensures
        collected(entries) == entries,
    decreases entries.len(),
{
    if entries.len() == 0 {
        assert(collected(entries) =~= entries);
    } else {
        let front = entries.drop_last();
        lemma_collected_distinct(front);
        lemma_position(front, entries.last().0);
        assert(collected(entries) =~= entries);
    }
}

/// Collecting records leaves none out: what comes of it is empty only where
/// nothing went in.
pub proof fn lemma_collected_empty<T>(pairs: Entries<T>)
    ensures
        collected(pairs).len() == 0 <==> pairs.len() == 0,
        collected(pairs).len() <= pairs.len(),
    decreases pairs.len(),
{
    if pairs.len() > 0 {
        lemma_collected_empty(pairs.drop_last());
        lemma_position(collected(pairs.drop_last()), pairs.last().0);
    }
}

/// Whatever collecting keeps is one of the records that went in, under its
/// key.
pub proof fn lemma_collected_from<T>(pairs: Entries<T>, i: int)
    requires
        0 <= i < collected(pairs).len(),
    ensures
        exists|j: int| 0 <= j < pairs.len() && collected(pairs)[i] == pairs[j],
    decreases pairs.len(),
{
    if pairs.len() > 0 {
        let front = pairs.drop_last();
        let before = collected(front);
        let last = pairs.last();
        lemma_position(before, last.0);
        if collected(pairs)[i] == last {
            assert(collected(pairs)[i] == pairs[pairs.len() - 1]);
        } else {
            assert(collected(pairs)[i] == before[i]);
            lemma_collected_from(front, i);
            let j = choose|j: int| 0 <= j < front.len() && before[i] == front[j];
            assert(collected(pairs)[i] == pairs[j]);
        }
    }
}

/// Replacing the records does not touch the keys.
pub proof fn lemma_mapped_distinct<T, U>(entries: Entries<T>, f: spec_fn(T) -> U)
    ensures
        distinct_keys(mapped(entries, f)) == distinct_keys(entries),
{
    if distinct_keys(entries) {
        assert(distinct_keys(mapped(entries, f)));
    }
    if distinct_keys(mapped(entries, f)) {
        assert forall|i: int, j: int| 0 <= i < j < entries.len() implies entries[i].0
            != entries[j].0 by {
            assert(mapped(entries, f)[i].0 == entries[i].0);
            assert(mapped(entries, f)[j].0 == entries[j].0);
        }
    }
}

/// Of records under one key the last is kept: after collecting, the key
/// stands once, with the record of its last occurrence.
pub proof fn lemma_last_record_kept<T>(pairs: Entries<T>, i: int)
    requires
        0 <= i < pairs.len(),
        forall|k: int| i < k < pairs.len() ==> pairs[k].0 != pairs[i].0,
    ensures
        distinct_keys(collected(pairs)),
        match position(collected(pairs), pairs[i].0) {
            Some(p) => collected(pairs)[p] == pairs[i],
            None => false,
        },
        map_of(collected(pairs)).dom().contains(pairs[i].0),
        map_of(collected(pairs))[pairs[i].0] == pairs[i].1,
    decreases pairs.len(),
{
    lemma_collected(pairs);
    let key = pairs[i].0;
    let front = pairs.drop_last();
    let before = collected(front);
    let after = collected(pairs);
    let last = pairs.last();
    assert(after == inserted(before, last.0, last.1));
    lemma_position(before, last.0);
    lemma_position(after, key);
    lemma_map_of(after, key);
    if i < pairs.len() - 1 {
        assert(forall|k: int| 0 <= k < front.len() ==> front[k] == pairs[k]);
        lemma_last_record_kept(front, i);
        lemma_position(before, key);
        let p = position(before, key)->0;
        assert(after[p] == before[p]);
        assert(position(after, key) == Some(p)) by {
            if position(after, key) != Some(p) {
                let q = position(after, key)->0;
                assert(position(after, key) is Some ==> after[q].0 == after[p].0);
                assert(position(after, key) is None ==> after[p].0 != key);
            }
        }
    } else {
        match position(before, key) {
            Some(p) => {
                assert(after[p] == pairs[i]);
                assert(position(after, key) == Some(p)) by {
                    if position(after, key) != Some(p) {
                        let q = position(after, key)->0;
                        assert(position(after, key) is Some ==> after[q].0 == after[p].0);
                        assert(position(after, key) is None ==> after[p].0 != key);
                    }
                }
            },
            None => {
                assert(after.last() == pairs[i]);
            },
        }
    }
}

/// One key with its record.
struct Entry<T> {
    key: String,
    record: T,
}

/// Records keyed by identifier. No key is held twice; the keys keep the order
/// in which they first came.
pub struct Snapshot<T> {
    entries: Vec<Entry<T>>,
}

impl<T> View for Snapshot<T> {
    type V = Map<Seq<char>, T>;

    /// The mapping from key to record.
    open spec fn view(&self) -> Map<Seq<char>, T> {
        map_of(self.entries())
    }
}

impl<T> Snapshot<T> {
    /// The keys with their records, in order.
    pub closed spec fn entries(&self) -> Entries<T> {
        Seq::new(self.entries@.len(), |i: int| (self.entries@[i].key@, self.entries@[i].record))
    }

    #[verifier::type_invariant]
    spec fn well_formed(&self) -> bool {
        distinct_keys(self.entries())
    }

    /// The snapshot without records.
    pub fn new() -> (r: Self)
        ensures
            r.entries() == Entries::<T>::empty(),
    {
        let r = Snapshot { entries: Vec::new() };
        assert(r.entries() =~= Entries::<T>::empty());
        r
    }

    /// The number of keys.
    pub fn len(&self) -> (r: usize)
        ensures
            r == self.entries().len(),
            r == self@.dom().len(),
            distinct_keys(self.entries()),
    {
        proof {
            use_type_invariant(self);
            lemma_distinct_count(self.entries());
        }
        self.entries.len()
    }

    /// The key at a place.
    pub fn key_at(&self, i: usize) -> (r: &String)
        requires
            i < self.entries().len(),
        ensures
            r@ == self.entries()[i as int].0,
    {
        &self.entries[i].key
    }

    /// The record at a place.
    pub fn record_at(&self, i: usize) -> (r: &T)
        requires
            i < self.entries().len(),
        ensures
            *r == self.entries()[i as int].1,
    {
        &self.entries[i].record
    }

    /// The place of a key.
    pub fn find(&self, key: &String) -> (r: Option<usize>)
        ensures
            match r {
                Some(i) => position(self.entries(), key@) == Some(i as int),
                None => position(self.entries(), key@) is None,
            },
    {
        let mut i: usize = self.entries.len();
        assert(self.entries().take(i as int) =~= self.entries());
        while i > 0
            invariant
                i <= self.entries.len(),
                position(self.entries(), key@) == position(self.entries().take(i as int), key@),
            decreases i,
        {
            assert(self.entries().take(i as int).drop_last() =~= self.entries().take(i - 1));
            if self.entries[i - 1].key == *key {
                return Some(i - 1);
            }
            i -= 1;
        }
        None
    }

    /// The record stored under a key, if there is one.
    pub fn get(&self, key: &String) -> (r: Option<&T>)
        ensures
            r == (if self@.dom().contains(key@) {
                Some(&self@[key@])
            } else {
                None
            }),
    {
        proof {
            lemma_map_of(self.entries(), key@);
            lemma_position(self.entries(), key@);
        }
        match self.find(key) {
            Some(i) => Some(&self.entries[i].record),
            None => None,
        }
    }

    /// Stores a record under a key; the record that the key had is replaced.
    pub fn insert(&mut self, key: String, record: T)
        ensures
            final(self).entries() == inserted(old(self).entries(), key@, record),
            final(self)@ == old(self)@.insert(key@, record),
    {
        proof {
            use_type_invariant(&*self);
            lemma_inserted_distinct(self.entries(), key@, record);
            lemma_inserted_map(self.entries(), key@, record);
        }
        let found = self.find(&key);
        let ghost before = self.entries();
        let mut entries: Vec<Entry<T>> = Vec::new();
        std::mem::swap(&mut entries, &mut self.entries);
        match found {
            Some(i) => {
                proof {
                    lemma_position(before, key@);
                }
                entries.set(i, Entry { key, record });
            },
            None => {
                entries.push(Entry { key, record });
            },
        }
        assert(Seq::new(entries@.len(), |i: int| (entries@[i].key@, entries@[i].record))
            =~= inserted(before, key@, record));
        self.entries = entries;
    }
}

} // verus!
