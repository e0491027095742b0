//! A map from text keys to text values, kept as a list of entries whose keys
//! are pairwise distinct.

use vstd::prelude::*;
use crate::utils::text::same_text;

verus! {

/// The keys of `entries`, in order.
pub open spec fn keys_of(entries: Seq<(String, String)>) -> Seq<Seq<char>> {
    Seq::new(entries.len(), |i: int| entries[i].0@)
}

/// The map that a list of pairs builds up when they are stored one after the
/// other: of two pairs with one key, the later one stays.
pub open spec fn map_of_pairs(pairs: Seq<(String, String)>) -> Map<Seq<char>, Seq<char>>
    decreases pairs.len(),
{
    if pairs.len() == 0 {
        Map::empty()
    } else {
        map_of_pairs(pairs.drop_last()).insert(pairs.last().0@, pairs.last().1@)
    }
}

/// The map that a list of entries with distinct keys stands for.
spec fn map_of(entries: Seq<(String, String)>) -> Map<Seq<char>, Seq<char>> {
    Map::new(
        |k: Seq<char>| keys_of(entries).contains(k),
        |k: Seq<char>| entries[keys_of(entries).index_of(k)].1@,
    )
}

/// With distinct keys, the entry at `i` is the one its key maps to.
proof fn lemma_entry_is_mapped(entries: Seq<(String, String)>, i: int)
    requires
        keys_of(entries).no_duplicates(),
        0 <= i < entries.len(),
    ensures
        map_of(entries).contains_key(entries[i].0@),
        map_of(entries)[entries[i].0@] == entries[i].1@,
{
    let keys = keys_of(entries);
    assert(keys[i] == entries[i].0@);
    let j = keys.index_of(entries[i].0@);
    assert(0 <= j < keys.len() && keys[j] == entries[i].0@);
}

/// A list of entries with distinct keys has as many entries as its map has keys.
proof fn lemma_map_of_len(entries: Seq<(String, String)>)
    requires
        keys_of(entries).no_duplicates(),
    ensures
        map_of(entries).dom().finite(),
        map_of(entries).len() == entries.len(),
{
    let keys = keys_of(entries);
    keys.unique_seq_to_set();
    assert(map_of(entries).dom() =~= keys.to_set());
}

/// A key of the map is the key of one of the entries.
proof fn lemma_mapped_is_entry(entries: Seq<(String, String)>, key: Seq<char>)
    requires
        map_of(entries).contains_key(key),
    ensures
        exists|i: int| 0 <= i < entries.len() && #[trigger] entries[i].0@ == key,
{
    let keys = keys_of(entries);
    let i = keys.index_of(key);
    assert(0 <= i < keys.len() && keys[i] == key);
}

/// Appending an entry under a fresh key adds that key to the map.
proof fn lemma_push_entry(entries: Seq<(String, String)>, entry: (String, String))
    requires
        keys_of(entries).no_duplicates(),
        !map_of(entries).contains_key(entry.0@),
    ensures
        keys_of(entries.push(entry)).no_duplicates(),
        map_of(entries.push(entry)) == map_of(entries).insert(entry.0@, entry.1@),
{
    let longer = entries.push(entry);
    assert forall|i: int, j: int|
        0 <= i < longer.len() && 0 <= j < longer.len() && i != j implies keys_of(longer)[i]
        != keys_of(longer)[j] by {
        if i < entries.len() {
            assert(keys_of(entries)[i] == entries[i].0@);
        }
        if j < entries.len() {
            assert(keys_of(entries)[j] == entries[j].0@);
        }
    }
    let target = map_of(entries).insert(entry.0@, entry.1@);
    assert forall|k: Seq<char>| #[trigger]
        map_of(longer).dom().contains(k) implies target.dom().contains(k) && map_of(longer)[k]
        == target[k] by {
        lemma_mapped_is_entry(longer, k);
        let i = choose|i: int| 0 <= i < longer.len() && #[trigger] longer[i].0@ == k;
        lemma_entry_is_mapped(longer, i);
        if i < entries.len() {
            lemma_entry_is_mapped(entries, i);
        }
    }
    assert forall|k: Seq<char>| #[trigger]
        target.dom().contains(k) implies map_of(longer).dom().contains(k) by {
        if k == entry.0@ {
            lemma_entry_is_mapped(longer, entries.len() as int);
        } else {
            lemma_mapped_is_entry(entries, k);
            let i = choose|i: int| 0 <= i < entries.len() && #[trigger] entries[i].0@ == k;
            lemma_entry_is_mapped(longer, i);
        }
    }
    assert(map_of(longer) =~= target);
}

/// Taking an entry out removes its key from the map.
proof fn lemma_remove_entry(entries: Seq<(String, String)>, at: int)
    requires
        keys_of(entries).no_duplicates(),
        0 <= at < entries.len(),
    ensures
        keys_of(entries.remove(at)).no_duplicates(),
        map_of(entries.remove(at)) == map_of(entries).remove(entries[at].0@),
{
    let shorter = entries.remove(at);
    let back = |i: int| if i < at { i } else { i + 1 };
    assert forall|i: int| 0 <= i < shorter.len() implies shorter[i] == entries[back(i)] by {}
    assert forall|i: int, j: int|
        0 <= i < shorter.len() && 0 <= j < shorter.len() && i != j implies keys_of(shorter)[i]
        != keys_of(shorter)[j] by {
        assert(keys_of(entries)[back(i)] == shorter[i].0@);
        assert(keys_of(entries)[back(j)] == shorter[j].0@);
    }
    let target = map_of(entries).remove(entries[at].0@);
    assert forall|k: Seq<char>| #[trigger]
        map_of(shorter).dom().contains(k) implies target.dom().contains(k) && map_of(shorter)[k]
        == target[k] by {
        lemma_mapped_is_entry(shorter, k);
        let i = choose|i: int| 0 <= i < shorter.len() && #[trigger] shorter[i].0@ == k;
        lemma_entry_is_mapped(shorter, i);
        lemma_entry_is_mapped(entries, back(i));
        assert(keys_of(entries)[back(i)] == k);
        assert(keys_of(entries)[at] == entries[at].0@);
    }
    assert forall|k: Seq<char>| #[trigger]
        target.dom().contains(k) implies map_of(shorter).dom().contains(k) by {
        lemma_mapped_is_entry(entries, k);
        let i = choose|i: int| 0 <= i < entries.len() && #[trigger] entries[i].0@ == k;
        let j = if i < at { i } else { i - 1 };
        lemma_entry_is_mapped(shorter, j);
    }
    assert(map_of(shorter) =~= target);
}

/// Entries with distinct keys stand for the map that storing them in turn builds.
proof fn lemma_map_of_is_stored(entries: Seq<(String, String)>)
    requires
        keys_of(entries).no_duplicates(),
    ensures
        map_of(entries) == map_of_pairs(entries),
    decreases entries.len(),
{
    if entries.len() == 0 {
        assert(map_of(entries) =~= Map::<Seq<char>, Seq<char>>::empty());
    } else {
        let front = entries.drop_last();
        assert(front == entries.remove(entries.len() - 1));
        lemma_remove_entry(entries, entries.len() - 1);
        lemma_map_of_is_stored(front);
        assert(entries == front.push(entries.last()));
        lemma_push_entry(front, entries.last());
    }
}

/// A map from text keys to text values.
#[derive(Debug)]
pub struct EnvMap {
    entries: Vec<(String, String)>,
}

impl View for EnvMap {
    type V = Map<Seq<char>, Seq<char>>;

    closed spec fn view(&self) -> Map<Seq<char>, Seq<char>> {
        map_of(self.entries@)
    }
}

impl EnvMap {
    #[verifier::type_invariant]
    spec fn distinct_keys(self) -> bool {
        keys_of(self.entries@).no_duplicates()
    }

    /// The map without entries.
    pub fn new() -> (map: Self)
        ensures
            map@ == Map::<Seq<char>, Seq<char>>::empty(),
    {
        let map = EnvMap { entries: Vec::new() };
        map
    }

    /// The number of keys.
    pub fn len(&self) -> (n: usize)
        ensures
            self@.dom().finite(),
            n == self@.len(),
    {
        proof {
            use_type_invariant(self);
            lemma_map_of_len(self.entries@);
        }
        self.entries.len()
    }

    /// Whether the map has no key.
    pub fn is_empty(&self) -> (empty: bool)
        ensures
            empty == (self@ == Map::<Seq<char>, Seq<char>>::empty()),
    {
        proof {
            use_type_invariant(self);
            lemma_map_of_len(self.entries@);
            if self.entries@.len() == 0 {
                assert(self@ =~= Map::<Seq<char>, Seq<char>>::empty());
            } else {
                lemma_entry_is_mapped(self.entries@, 0);
            }
        }
        self.entries.len() == 0
    }

    /// Where `key` is stored, if it is.
    fn position(&self, key: &str) -> (at: Option<usize>)
        ensures
            match at {
                Some(i) => i < self.entries@.len() && self.entries@[i as int].0@ == key@,
                None => !keys_of(self.entries@).contains(key@),
            },
    {
        let mut i: usize = 0;
        while i < self.entries.len()
            invariant
                i <= self.entries.len(),
                forall|j: int| 0 <= j < i ==> self.entries@[j].0@ != key@,
            decreases self.entries.len() - i,
        {
            if same_text(self.entries[i].0.as_str(), key) {
                return Some(i);
            }
            i += 1;
        }
        None
    }

    /// The value stored under `key`.
    pub fn get(&self, key: &str) -> (value: Option<&String>)
        ensures
            match value {
                Some(v) => self@.contains_key(key@) && v@ == self@[key@],
                None => !self@.contains_key(key@),
            },
    {
        proof {
            use_type_invariant(self);
        }
        match self.position(key) {
            Some(i) => {
                proof {
                    lemma_entry_is_mapped(self.entries@, i as int);
                }
                Some(&self.entries[i].1)
            },
            None => None,
        }
    }

    /// Whether `key` has a value.
    pub fn contains_key(&self, key: &str) -> (found: bool)
        ensures
            found == self@.contains_key(key@),
    {
        self.get(key).is_some()
    }

    /// Takes `key` and its value out of the map and returns the value.
    pub fn remove(&mut self, key: &str) -> (removed: Option<String>)
        ensures
            final(self)@ == old(self)@.remove(key@),
            match removed {
                Some(v) => old(self)@.contains_key(key@) && v@ == old(self)@[key@],
                None => !old(self)@.contains_key(key@),
            },
    {
        proof {
            use_type_invariant(&*self);
        }
        match self.position(key) {
            Some(i) => {
                let mut entries: Vec<(String, String)> = Vec::new();
                std::mem::swap(&mut entries, &mut self.entries);
                proof {
                    lemma_entry_is_mapped(entries@, i as int);
                    lemma_remove_entry(entries@, i as int);
                }
                let entry = entries.remove(i);
                self.entries = entries;
                Some(entry.1)
            },
            None => None,
        }
    }

    /// Stores `value` under `key` and returns the value that was there before.
    pub fn insert(&mut self, key: String, value: String) -> (previous: Option<String>)
        ensures
            final(self)@ == old(self)@.insert(key@, value@),
            match previous {
                Some(v) => old(self)@.contains_key(key@) && v@ == old(self)@[key@],
                None => !old(self)@.contains_key(key@),
            },
    {
        let previous = self.remove(key.as_str());
        proof {
            use_type_invariant(&*self);
            lemma_push_entry(self.entries@, (key, value));
        }
        let mut entries: Vec<(String, String)> = Vec::new();
        std::mem::swap(&mut entries, &mut self.entries);
        entries.push((key, value));
        self.entries = entries;
        previous
    }

    /// The map that storing `pairs` one after the other builds.
    pub fn from_pairs(pairs: &Vec<(String, String)>) -> (map: Self)
        ensures
            map@ == map_of_pairs(pairs@),
    {
        let mut map = EnvMap::new();
        let mut i: usize = 0;
        while i < pairs.len()
            invariant
                i <= pairs.len(),
                map@ == map_of_pairs(pairs@.take(i as int)),
            decreases pairs.len() - i,
        {
            assert(pairs@.take(i + 1).drop_last() == pairs@.take(i as int));
            map.insert(pairs[i].0.clone(), pairs[i].1.clone());
            i += 1;
        }
        assert(pairs@.take(i as int) == pairs@);
        map
    }

    /// The entries of the map, each key once, in no particular order.
    pub fn to_pairs(&self) -> (pairs: Vec<(String, String)>)
        ensures
            keys_of(pairs@).no_duplicates(),
            map_of_pairs(pairs@) == self@,
    {
        let mut pairs: Vec<(String, String)> = Vec::new();
        let mut i: usize = 0;
        while i < self.entries.len()
            invariant
                i <= self.entries.len(),
                pairs@ == self.entries@.take(i as int),
            decreases self.entries.len() - i,
        {
            pairs.push((self.entries[i].0.clone(), self.entries[i].1.clone()));
            i += 1;
        }
        proof {
            use_type_invariant(self);
            assert(pairs@ == self.entries@);
            lemma_map_of_is_stored(pairs@);
        }
        pairs
    }
}

impl Clone for EnvMap {
    fn clone(&self) -> (copy: Self)
        ensures
            copy@ == self@,
    {
        let pairs = self.to_pairs();
        proof {
            use_type_invariant(self);
            lemma_map_of_is_stored(self.entries@);
        }
        EnvMap::from_pairs(&pairs)
    }
}

} // verus!
