//! String-keyed property maps, kept as a list of entries with distinct keys.
//!
//! vstd specifies `HashMap` only for keys whose hashing it models, and
//! `String` is not among them: of a `HashMap<String, String>` not even the
//! entry just inserted can be proved to be there. A list with distinct keys
//! has the same view, a map from names to values, and every operation on it
//! is proved against that view.

use vstd::prelude::*;

verus! {

/// A map from names to values, kept as a list of entries in which no name
/// occurs twice.
#[derive(Debug)]
pub struct Properties {
    entries: Vec<(String, String)>,
}

/// The map that a list of entries stands for; of two entries with one key the
/// later one counts.
pub open spec fn map_of(entries: Seq<(String, String)>) -> Map<Seq<char>, Seq<char>>
    decreases entries.len(),
{
    if entries.len() == 0 {
        Map::empty()
    } else {
        map_of(entries.drop_last()).insert(entries.last().0@, entries.last().1@)
    }
}

/// Whether no key occurs twice in a list of entries.
pub open spec fn keys_distinct(entries: Seq<(String, String)>) -> bool {
    forall|i: int, j: int| 0 <= i < j < entries.len() ==> entries[i].0@ != entries[j].0@
}

/// Whether a key occurs among the entries.
pub open spec fn has_key(entries: Seq<(String, String)>, key: Seq<char>) -> bool {
    exists|i: int| 0 <= i < entries.len() && (#[trigger] entries[i]).0@ == key
}

/// The keys of the map are the keys of the entries.
pub proof fn lemma_map_of_dom(entries: Seq<(String, String)>, key: Seq<char>)
    ensures
        map_of(entries).dom().contains(key) <==> has_key(entries, key),
    decreases entries.len(),
{
    if entries.len() > 0 {
        let front = entries.drop_last();
        lemma_map_of_dom(front, key);
        if has_key(front, key) {
            let i = choose|i: int| 0 <= i < front.len() && (#[trigger] front[i]).0@ == key;
            assert(entries[i].0@ == key);
        }
        if has_key(entries, key) {
            let i = choose|i: int| 0 <= i < entries.len() && (#[trigger] entries[i]).0@ == key;
            if i < front.len() {
                assert(front[i].0@ == key);
            }
        }
        if entries.last().0@ == key {
            assert(entries[entries.len() - 1].0@ == key);
        }
    }
}

/// Where keys are distinct, the map holds each entry's value under its key.
pub proof fn lemma_map_of_entry(entries: Seq<(String, String)>, i: int)
    requires
        keys_distinct(entries),
        0 <= i < entries.len(),
    ensures
        map_of(entries).dom().contains(entries[i].0@),
        map_of(entries)[entries[i].0@] == entries[i].1@,
    decreases entries.len(),
{
    let front = entries.drop_last();
    if i < front.len() {
        lemma_map_of_entry(front, i);
    }
}

/// Replacing the value of an entry is inserting under its key.
pub proof fn lemma_map_of_update(entries: Seq<(String, String)>, i: int, entry: (String, String))
    requires
        keys_distinct(entries),
        0 <= i < entries.len(),
        entry.0@ == entries[i].0@,
    ensures
        keys_distinct(entries.update(i, entry)),
        map_of(entries.update(i, entry)) == map_of(entries).insert(entry.0@, entry.1@),
    decreases entries.len(),
{
    let after = entries.update(i, entry);
    let front = entries.drop_last();
    if i < front.len() {
        lemma_map_of_update(front, i, entry);
        assert(after.drop_last() =~= front.update(i, entry));
        assert(after.last() == entries.last());
        assert(entries.last().0@ != entry.0@);
        assert(map_of(after) =~= map_of(entries).insert(entry.0@, entry.1@));
    } else {
        assert(after.drop_last() =~= front);
        assert(map_of(after) =~= map_of(entries).insert(entry.0@, entry.1@));
    }
}

/// The position of a key among the entries, where it occurs.
pub open spec fn index_of(entries: Seq<(String, String)>, key: Seq<char>) -> int {
    choose|i: int| 0 <= i < entries.len() && (#[trigger] entries[i]).0@ == key
}

/// The entries after a value is put under a key: the entry of the key has
/// the new value and keeps its place; a new key comes last.
pub open spec fn with_entry(entries: Seq<(String, String)>, key: String, value: String) -> Seq<
    (String, String),
> {
    if has_key(entries, key@) {
        entries.update(index_of(entries, key@), (key, value))
    } else {
        entries.push((key, value))
    }
}

/// Where keys are distinct, the map has as many keys as there are entries.
pub proof fn lemma_map_of_len(entries: Seq<(String, String)>)
    requires
        keys_distinct(entries),
    ensures
        map_of(entries).dom().finite(),
        map_of(entries).dom().len() == entries.len(),
    decreases entries.len(),
{
    if entries.len() > 0 {
        let front = entries.drop_last();
        let key = entries.last().0@;
        lemma_map_of_len(front);
        lemma_map_of_dom(front, key);
        if has_key(front, key) {
            let i = choose|i: int| 0 <= i < front.len() && (#[trigger] front[i]).0@ == key;
            assert(entries[i].0@ == entries[entries.len() - 1].0@);
        }
        assert(map_of(entries).dom() =~= map_of(front).dom().insert(key));
    }
}

impl View for Properties {
    type V = Map<Seq<char>, Seq<char>>;

    closed spec fn view(&self) -> Map<Seq<char>, Seq<char>> {
        map_of(self.entries@)
    }
}

impl Properties {
    /// The invariant: no key occurs twice.
    #[verifier::type_invariant]
    spec fn wf(self) -> bool {
        keys_distinct(self.entries@)
    }

    /// The entries in the order in which their keys first came.
    pub closed spec fn entries(&self) -> Seq<(String, String)> {
        self.entries@
    }

    /// The empty map.
    pub fn new() -> (r: Self)
        ensures
            r@ == Map::<Seq<char>, Seq<char>>::empty(),
            r.entries().len() == 0,
    {
        Properties { entries: Vec::new() }
    }

    /// The number of entries, which is the number of keys of the map.
    pub fn len(&self) -> (n: usize)
        ensures
            n == self.entries().len(),
            self@.dom().finite(),
            n == self@.dom().len(),
    {
        proof {
            use_type_invariant(self);
            lemma_map_of_len(self.entries@);
        }
        self.entries.len()
    }

    /// Whether the map has the key.
    pub fn contains_key(&self, key: &String) -> (b: bool)
        ensures
            b == self@.dom().contains(key@),
    {
        proof {
            lemma_map_of_dom(self.entries@, key@);
        }
        position(&self.entries, key).is_some()
    }

    /// The value under a key.
    pub fn get(&self, key: &String) -> (r: Option<String>)
        ensures
            match r {
                Some(v) => self@.dom().contains(key@) && self@[key@] == v@,
                None => !self@.dom().contains(key@),
            },
    {
        proof {
            use_type_invariant(self);
            lemma_map_of_dom(self.entries@, key@);
        }
        match position(&self.entries, key) {
            Some(i) => {
                proof {
                    lemma_map_of_entry(self.entries@, i as int);
                }
                Some(self.entries[i].1.clone())
            },
            None => None,
        }
    }

    /// Puts a value under a key, in place of the one that was there.
    pub fn insert(&mut self, key: String, value: String)
        ensures
            final(self)@ == old(self)@.insert(key@, value@),
            final(self).entries() == with_entry(old(self).entries(), key, value),
    {
        proof {
            use_type_invariant(&*self);
        }
        let mut entries: Vec<(String, String)> = Vec::new();
        std::mem::swap(&mut entries, &mut self.entries);
        let ghost before = entries@;
        match position(&entries, &key) {
            Some(i) => {
                proof {
                    lemma_map_of_update(before, i as int, (key, value));
                    assert(before[i as int].0@ == key@);
                    assert(index_of(before, key@) == i);
                }
                entries.set(i, (key, value));
            },
            None => {
                entries.push((key, value));
                proof {
                    assert(entries@.drop_last() =~= before);
                    assert forall|i: int, j: int| 0 <= i < j < entries@.len() implies entries@[i].0@
                        != entries@[j].0@ by {
                        if j == before.len() {
                            assert(before[i].0@ != key@);
                        }
                    }
                }
            },
        }
        self.entries = entries;
    }

    /// The key of entry `i`.
    pub fn key_at(&self, i: usize) -> (k: String)
        requires
            i < self.entries().len(),
        ensures
            k@ == self.entries()[i as int].0@,
    {
        self.entries[i].0.clone()
    }

    /// The value of entry `i`.
    pub fn value_at(&self, i: usize) -> (v: String)
        requires
            i < self.entries().len(),
        ensures
            v@ == self.entries()[i as int].1@,
    {
        self.entries[i].1.clone()
    }

    /// A copy of the entries: no key occurs twice among them, and they stand
    /// for the map.
    pub fn pairs(&self) -> (r: Vec<(String, String)>)
        ensures
            r@ == self.entries(),
            keys_distinct(r@),
            map_of(r@) == self@,
    {
        proof {
            use_type_invariant(self);
        }
        let mut out: Vec<(String, String)> = Vec::new();
        let mut i: usize = 0;
        while i < self.entries.len()
            invariant
                i <= self.entries@.len(),
                out@ == self.entries@.take(i as int),
            decreases self.entries.len() - i,
        {
            let k = self.entries[i].0.clone();
            let v = self.entries[i].1.clone();
            out.push((k, v));
            proof {
                assert(out@ =~= self.entries@.take(i + 1));
            }
            i += 1;
        }
        proof {
            assert(self.entries@.take(self.entries@.len() as int) =~= self.entries@);
        }
        out
    }

    /// A copy of the map.
    pub fn duplicate(&self) -> (r: Self)
        ensures
            r@ == self@,
            r.entries() == self.entries(),
    {
        Properties { entries: self.pairs() }
    }
}

/// The position of a key among the entries.
fn position(entries: &Vec<(String, String)>, key: &String) -> (r: Option<usize>)
    ensures
        match r {
            Some(i) => i < entries@.len() && entries@[i as int].0@ == key@,
            None => !has_key(entries@, key@),
        },
{
    let mut i: usize = 0;
    while i < entries.len()
        invariant
            i <= entries@.len(),
            forall|j: int| 0 <= j < i ==> (#[trigger] entries@[j]).0@ != key@,
        decreases entries.len() - i,
    {
        if entries[i].0 == *key {
            return Some(i);
        }
        i += 1;
    }
    None
}

} // verus!
