//! A small store of values by name in which a later value for a name
//! replaces the earlier one.
use vstd::prelude::*;
use crate::actions::last_index_named;
use crate::text::{chars_eq, chars_of};

verus! {

/// Values stored by name. A name stored twice keeps the later value.
pub struct NamedStore<V> {
    entries: Vec<(String, V)>,
}

impl<V> NamedStore<V> {
    /// The names stored, in insertion order.
    pub closed spec fn keys(&self) -> Seq<Seq<char>> {
        self.entries@.map_values(|e: (String, V)| e.0@)
    }

    /// The value stored for `key`: the one stored last.
    pub closed spec fn lookup(&self, key: Seq<char>) -> Option<V> {
        let i = last_index_named(self.keys(), key);
        if i >= 0 {
            Some(self.entries@[i].1)
        } else {
            None
        }
    }

    /// An empty store.
    pub fn new() -> (c: Self)
        ensures
            forall|key: Seq<char>| #[trigger] c.lookup(key) is None,
    {
        NamedStore { entries: Vec::new() }
    }

    /// Stores `value` for `key`; other keys keep their values.
    pub fn insert(&mut self, key: String, value: V)
        ensures
            final(self).lookup(key@) == Some(value),
            forall|other: Seq<char>|
                other != key@ ==> #[trigger] final(self).lookup(other) == old(self).lookup(other),
    {
        let ghost k = key@;
        self.entries.push((key, value));
        proof {
            assert(self.keys().drop_last() =~= old(self).keys());
            assert(self.keys().last() == k);
            assert forall|other: Seq<char>| other != k implies #[trigger] self.lookup(other)
                == old(self).lookup(other) by {
                assert(last_index_named(self.keys(), other) == last_index_named(
                    old(self).keys(),
                    other,
                ));
                lemma_last_index_below(old(self).keys(), other);
            }
        }
    }

    /// The position of the value stored for `key`.
    fn find(&self, key: &str) -> (r: Option<usize>)
        ensures
            match r {
                Some(i) => i as int == last_index_named(self.keys(), key@) && i
                    < self.entries@.len(),
                None => last_index_named(self.keys(), key@) == -1,
            },
    {
        let target = chars_of(key);
        let mut i: usize = self.entries.len();
        assert(self.keys().take(i as int) =~= self.keys());
        while i > 0
            invariant
                i <= self.entries@.len(),
                target@ == key@,
                last_index_named(self.keys(), key@) == last_index_named(
                    self.keys().take(i as int),
                    key@,
                ),
            decreases i,
        {
            let candidate = chars_of(self.entries[i - 1].0.as_str());
            proof {
                assert(self.keys().take(i as int).drop_last() =~= self.keys().take(i - 1));
                assert(self.keys().take(i as int).last() == self.entries@[i - 1].0@);
            }
            if chars_eq(&candidate, &target) {
                return Some(i - 1);
            }
            i = i - 1;
        }
        None
    }

    /// Whether a value is stored for `key`.
    pub fn contains(&self, key: &str) -> (r: bool)
        ensures
            r == self.lookup(key@) is Some,
    {
        self.find(key).is_some()
    }

    /// The value stored for `key`.
    pub fn get(&self, key: &str) -> (r: Option<&V>)
        ensures
            match (r, self.lookup(key@)) {
                (Some(v), Some(w)) => *v == w,
                (None, None) => true,
                _ => false,
            },
    {
        match self.find(key) {
            Some(i) => Some(&self.entries[i].1),
            None => None,
        }
    }
}

proof fn lemma_last_index_below(names: Seq<Seq<char>>, name: Seq<char>)
    ensures
        -1 <= last_index_named(names, name) < names.len(),
    decreases names.len(),
{
    if names.len() > 0 {
        lemma_last_index_below(names.drop_last(), name);
    }
}


} // verus!
