//! A small table from names to values, in which a later entry under a name
//! takes the place of the earlier one.

use vstd::prelude::*;
use crate::text::{chars_of, equals};

verus! {

/// The value that stands under `key` in a run of named entries: that of the
/// first entry with this name.
pub open spec fn first_named<T>(entries: Seq<(String, T)>, key: Seq<char>) -> Option<T>
    decreases entries.len(),
{
    if entries.len() == 0 {
        None
    } else {
        match first_named(entries.drop_last(), key) {
            Some(v) => Some(v),
            None => if entries.last().0@ == key {
                Some(entries.last().1)
            } else {
                None
            },
        }
    }
}

/// What a run of named entries holds, as a map from names to values.
pub open spec fn named_map<T>(entries: Seq<(String, T)>) -> Map<Seq<char>, T> {
    Map::new(
        |key: Seq<char>| first_named(entries, key).is_some(),
        |key: Seq<char>| first_named(entries, key).unwrap(),
    )
}

/// A name that is found among the first entries is found, with the same
/// value, among all of them.
pub proof fn lemma_first_named_prefix<T>(entries: Seq<(String, T)>, key: Seq<char>, n: int)
    requires
        0 <= n <= entries.len(),
        first_named(entries.subrange(0, n), key).is_some(),
    ensures
        first_named(entries, key) == first_named(entries.subrange(0, n), key),
    decreases entries.len() - n,
{
    if n < entries.len() {
        let longer = entries.subrange(0, n + 1);
        assert(longer.drop_last() =~= entries.subrange(0, n));
        lemma_first_named_prefix(entries, key, n + 1);
    } else {
        assert(entries.subrange(0, n) =~= entries);
    }
}

/// A table from names to values.
pub struct NameTable<T> {
    entries: Vec<(String, T)>,
}

impl<T> View for NameTable<T> {
    type V = Map<Seq<char>, T>;

    closed spec fn view(&self) -> Map<Seq<char>, T> {
        named_map(self.entries@)
    }
}

impl<T> NameTable<T> {
    /// An empty table.
    pub fn new() -> (table: NameTable<T>)
        ensures
            table@ == Map::<Seq<char>, T>::empty(),
    {
        let table = NameTable { entries: Vec::new() };
        assert(table@ =~= Map::<Seq<char>, T>::empty());
        table
    }

    /// The value under `name`, if the table has one.
    pub fn get(&self, name: &str) -> (found: Option<&T>)
        ensures
            match found {
                Some(v) => self@.contains_key(name@) && self@[name@] == *v,
                None => !self@.contains_key(name@),
            },
    {
        let key = chars_of(name);
        let mut i: usize = 0;
        while i < self.entries.len()
            invariant
                i <= self.entries.len(),
                key@ == name@,
                first_named(self.entries@.subrange(0, i as int), name@).is_none(),
            decreases self.entries.len() - i,
        {
            let ghost longer = self.entries@.subrange(0, i + 1);
            assert(longer.drop_last() =~= self.entries@.subrange(0, i as int));
            assert(longer.last() == self.entries@[i as int]);
            if equals(&key, self.entries[i].0.as_str()) {
                proof {
                    lemma_first_named_prefix(self.entries@, name@, i + 1);
                }
                return Some(&self.entries[i].1);
            }
            i += 1;
        }
        assert(self.entries@.subrange(0, i as int) =~= self.entries@);
        None
    }

    /// Whether the table has a value under `name`.
    pub fn contains(&self, name: &str) -> (found: bool)
        ensures
            found == self@.contains_key(name@),
    {
        self.get(name).is_some()
    }

    /// Takes the entry under `name` out of the table, if there is one.
    pub fn remove(&mut self, name: &str)
        ensures
            final(self)@ == old(self)@.remove(name@),
    {
        let key = chars_of(name);
        let mut i: usize = 0;
        while i < self.entries.len()
            invariant
                i <= self.entries.len(),
                key@ == name@,
                forall|k: int| 0 <= k < i ==> (#[trigger] self.entries@[k]).0@ != name@,
                forall|other: Seq<char>|
                    other != name@ ==> #[trigger] first_named(self.entries@, other) == first_named(
                        old(self).entries@,
                        other,
                    ),
            decreases self.entries.len() - i,
        {
            if equals(&key, self.entries[i].0.as_str()) {
                let ghost before = self.entries@;
                self.entries.remove(i);
                proof {
                    assert forall|other: Seq<char>| other != name@ implies #[trigger] first_named(
                        self.entries@,
                        other,
                    ) == first_named(old(self).entries@, other) by {
                        lemma_remove_other(before, other, i as int);
                    }
                }
            } else {
                i += 1;
            }
        }
        proof {
            lemma_absent(self.entries@, name@);
        }
        assert(self@ =~= old(self)@.remove(name@));
    }

    /// Puts `value` under `name`. A value that stood there before is
    /// gone.
    pub fn insert(&mut self, name: String, value: T)
        ensures
            final(self)@ == old(self)@.insert(name@, value),
    {
        self.remove(name.as_str());
        let ghost before = self.entries@;
        let ghost removed = self@;
        assert(!removed.contains_key(name@));
        assert(first_named(before, name@).is_none());
        self.entries.push((name, value));
        proof {
            assert(self.entries@.drop_last() =~= before);
            assert(self.entries@.last() == (name, value));
            assert forall|other: Seq<char>| #[trigger]
                first_named(self.entries@, other) == if other == name@ {
                    Some(value)
                } else {
                    first_named(before, other)
                } by {}
            assert forall|other: Seq<char>| self@.contains_key(other) == old(self)@.insert(
                name@,
                value,
            ).contains_key(other) by {
                assert(removed.contains_key(other) == first_named(before, other).is_some());
            }
            assert forall|other: Seq<char>| self@.contains_key(other) implies self@[other] == old(
                self,
            )@.insert(name@, value)[other] by {
                assert(removed.contains_key(other) == first_named(before, other).is_some());
                if other != name@ {
                    assert(removed[other] == first_named(before, other).unwrap());
                }
            }
        }
        assert(self@ =~= old(self)@.insert(name@, value));
    }
}

/// A name that no entry carries is not found.
pub proof fn lemma_absent<T>(entries: Seq<(String, T)>, key: Seq<char>)
    requires
        forall|k: int| 0 <= k < entries.len() ==> (#[trigger] entries[k]).0@ != key,
    ensures
        first_named(entries, key).is_none(),
    decreases entries.len(),
{
    if entries.len() > 0 {
        let rest = entries.drop_last();
        assert forall|k: int| 0 <= k < rest.len() implies (#[trigger] rest[k]).0@ != key by {
            assert(rest[k] == entries[k]);
        }
        lemma_absent(rest, key);
        assert(entries.last() == entries[entries.len() - 1]);
    }
}

/// Taking out an entry with another name does not change what is found
/// under `other`.
pub proof fn lemma_remove_other<T>(entries: Seq<(String, T)>, other: Seq<char>, at: int)
    requires
        0 <= at < entries.len(),
        entries[at].0@ != other,
    ensures
        first_named(entries.remove(at), other) == first_named(entries, other),
    decreases entries.len(),
{
    if at == entries.len() - 1 {
        assert(entries.remove(at) =~= entries.drop_last());
    } else {
        lemma_remove_other(entries.drop_last(), other, at);
        assert(entries.remove(at).drop_last() =~= entries.drop_last().remove(at));
        assert(entries.remove(at).last() == entries.last());
    }
}

} // verus!
