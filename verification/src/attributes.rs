//! The attributes of a message segment: a mapping from names to values that
//! remembers the order in which the names were first inserted.

use vstd::prelude::*;
use crate::text::str_eq;

verus! {

/// The model of an attribute mapping: its `(name, value)` pairs in insertion
/// order.
pub type Pairs = Seq<(Seq<char>, Seq<char>)>;

/// Whether some pair of `m` is named `k`.
pub open spec fn has_key(m: Pairs, k: Seq<char>) -> bool {
    exists|i: int| 0 <= i < m.len() && (#[trigger] m[i]).0 == k
}

/// The position of the pair named `k`, where there is one.
pub open spec fn key_index(m: Pairs, k: Seq<char>) -> int {
    choose|i: int| 0 <= i < m.len() && (#[trigger] m[i]).0 == k
}

/// The value under the name `k`, where there is one.
pub open spec fn value_of(m: Pairs, k: Seq<char>) -> Seq<char> {
    m[key_index(m, k)].1
}

/// No name occurs twice.
pub open spec fn distinct_keys(m: Pairs) -> bool {
    forall|i: int, j: int| 0 <= i < j < m.len() ==> (#[trigger] m[i]).0 != (#[trigger] m[j]).0
}

/// `m` after `k` is set to `v`: an existing pair keeps its place and gets the
/// new value, a new name goes to the end.
pub open spec fn put(m: Pairs, k: Seq<char>, v: Seq<char>) -> Pairs {
    if has_key(m, k) {
        m.update(key_index(m, k), (k, v))
    } else {
        m.push((k, v))
    }
}

/// Setting a name keeps the names distinct.
pub proof fn lemma_put_distinct(m: Pairs, k: Seq<char>, v: Seq<char>)
    requires
        distinct_keys(m),
    ensures
        distinct_keys(put(m, k, v)),
        has_key(put(m, k, v), k),
        value_of(put(m, k, v), k) == v,
{
    let after = put(m, k, v);
    if has_key(m, k) {
        let at = key_index(m, k);
        assert forall|i: int, j: int| 0 <= i < j < after.len() implies (#[trigger] after[i]).0 != (
        #[trigger] after[j]).0 by {
            assert(m[i].0 != m[j].0);
        }
        assert(after[at].0 == k);
    } else {
        assert forall|i: int, j: int| 0 <= i < j < after.len() implies (#[trigger] after[i]).0 != (
        #[trigger] after[j]).0 by {
            if j < m.len() {
                assert(m[i].0 != m[j].0);
            } else {
                assert(m[i].0 != k);
            }
        }
        assert(after[m.len() as int].0 == k);
    }
    let found = key_index(after, k);
    assert(after[found].0 == k);
    if has_key(m, k) {
        let at = key_index(m, k);
        assert(after[at].0 == k);
        if found != at {
            if found < at {
                assert(after[found].0 != after[at].0);
            } else {
                assert(after[at].0 != after[found].0);
            }
        }
    } else {
        let at = m.len() as int;
        assert(after[at].0 == k);
        if found != at {
            assert(after[found].0 != after[at].0);
        }
    }
}

/// Setting a name that is not present yet appends the pair.
pub proof fn lemma_put_fresh(m: Pairs, k: Seq<char>, v: Seq<char>)
    requires
        forall|i: int| 0 <= i < m.len() ==> (#[trigger] m[i]).0 != k,
    ensures
        put(m, k, v) == m.push((k, v)),
{
}

/// An insertion-ordered mapping from attribute names to values. No name
/// occurs twice. Two mappings are equal when they hold the same pairs in
/// the same order.
#[derive(Debug, PartialEq, Eq)]
pub struct Attributes {
    entries: Vec<(String, String)>,
}

spec fn pairs_of(entries: Seq<(String, String)>) -> Pairs {
    Seq::new(entries.len(), |i: int| (entries[i].0@, entries[i].1@))
}

impl View for Attributes {
    type V = Pairs;

    closed spec fn view(&self) -> Pairs {
        pairs_of(self.entries@)
    }
}

impl Attributes {
    #[verifier::type_invariant]
    spec fn names_distinct(self) -> bool {
        distinct_keys(self@)
    }

    /// The empty mapping.
    pub fn new() -> (r: Self)
        ensures
            r@ == Pairs::empty(),
    {
        let entries: Vec<(String, String)> = Vec::new();
        assert(pairs_of(entries@) =~= Pairs::empty());
        Attributes { entries }
    }

    /// The number of names, which are distinct.
    pub fn len(&self) -> (n: usize)
        ensures
            n == self@.len(),
            distinct_keys(self@),
    {
        proof {
            use_type_invariant(self);
        }
        self.entries.len()
    }

    fn position(&self, key: &str) -> (r: Option<usize>)
        ensures
            distinct_keys(self@),
            match r {
                Some(i) => has_key(self@, key@) && i == key_index(self@, key@) && i < self@.len(),
                None => !has_key(self@, key@),
            },
    {
        proof {
            use_type_invariant(self);
        }
        let mut i: usize = 0;
        while i < self.entries.len()
            invariant
                i <= self.entries.len(),
                distinct_keys(self@),
                forall|j: int| 0 <= j < i ==> (#[trigger] self@[j]).0 != key@,
            decreases self.entries.len() - i,
        {
            if str_eq(self.entries[i].0.as_str(), key) {
                proof {
                    assert(self@[i as int].0 == key@);
                    let at = key_index(self@, key@);
                    if at != i {
                        if at < i {
                            assert(self@[at].0 != self@[i as int].0);
                        } else {
                            assert(self@[i as int].0 != self@[at].0);
                        }
                    }
                }
                return Some(i);
            }
            i += 1;
        }
        None
    }

    /// The value under `key`, if the name is present.
    pub fn get(&self, key: &str) -> (r: Option<&String>)
        ensures
            match r {
                Some(v) => has_key(self@, key@) && v@ == value_of(self@, key@),
                None => !has_key(self@, key@),
            },
    {
        match self.position(key) {
            Some(i) => Some(&self.entries[i].1),
            None => None,
        }
    }

    /// The pair at position `i` in insertion order, if there are that many.
    pub fn entry(&self, i: usize) -> (r: Option<(&String, &String)>)
        ensures
            match r {
                Some(pair) => i < self@.len() && pair.0@ == self@[i as int].0 && pair.1@
                    == self@[i as int].1,
                None => i >= self@.len(),
            },
    {
        if i < self.entries.len() {
            let pair = &self.entries[i];
            Some((&pair.0, &pair.1))
        } else {
            None
        }
    }

    /// Sets `key` to `value` and returns the value that it replaces, if any.
    pub fn insert(&mut self, key: String, value: String) -> (r: Option<String>)
        ensures
            final(self)@ == put(old(self)@, key@, value@),
            match r {
                Some(v) => has_key(old(self)@, key@) && v@ == value_of(old(self)@, key@),
                None => !has_key(old(self)@, key@),
            },
    {
        proof {
            use_type_invariant(&*self);
            lemma_put_distinct(self@, key@, value@);
        }
        let found = self.position(key.as_str());
        // The entries are taken out while they change and put back once the
        // names are known to be distinct again.
        let mut entries: Vec<(String, String)> = Vec::new();
        std::mem::swap(&mut self.entries, &mut entries);
        let previous = match found {
            Some(i) => {
                let previous = entries[i].1.clone();
                entries.set(i, (key, value));
                Some(previous)
            },
            None => {
                entries.push((key, value));
                None
            },
        };
        assert(pairs_of(entries@) =~= put(old(self)@, key@, value@));
        std::mem::swap(&mut self.entries, &mut entries);
        previous
    }
}

impl Clone for Attributes {
    fn clone(&self) -> (r: Self)
        ensures
            r@ == self@,
    {
        proof {
            use_type_invariant(self);
        }
        let mut entries: Vec<(String, String)> = Vec::new();
        let mut i: usize = 0;
        while i < self.entries.len()
            invariant
                i <= self.entries.len(),
                entries.len() == i,
                forall|j: int|
                    0 <= j < i ==> (#[trigger] entries@[j]).0@ == self.entries@[j].0@
                        && entries@[j].1@ == self.entries@[j].1@,
            decreases self.entries.len() - i,
        {
            let pair = &self.entries[i];
            entries.push((pair.0.clone(), pair.1.clone()));
            i += 1;
        }
        assert(pairs_of(entries@) =~= self@);
        Attributes { entries }
    }
}

impl Default for Attributes {
    fn default() -> (r: Self)
        ensures
            r@ == Pairs::empty(),
    {
        Attributes::new()
    }
}

} // verus!
