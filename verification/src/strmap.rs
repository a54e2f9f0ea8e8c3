//! A map from strings to strings, used for environment variables and aliases.

use vstd::prelude::*;

use crate::text::{chars_of, seq_eq};

verus! {

/// A finite map from keys to values, both strings. Its meaning is a `Map`
/// from character sequences to character sequences; a later entry for a key
/// hides an earlier one.
#[derive(Debug)]
pub struct StringMap {
    entries: Vec<(String, String)>,
}

/// The map that a list of entries stands for.
pub open spec fn entries_map(e: Seq<(String, String)>) -> Map<Seq<char>, Seq<char>>
    decreases e.len(),
{
    if e.len() == 0 {
        Map::empty()
    } else {
        entries_map(e.drop_last()).insert(e.last().0@, e.last().1@)
    }
}

impl View for StringMap {
    type V = Map<Seq<char>, Seq<char>>;

    closed spec fn view(&self) -> Map<Seq<char>, Seq<char>> {
        entries_map(self.entries@)
    }
}

proof fn entries_map_push(e: Seq<(String, String)>, x: (String, String))
    ensures
        entries_map(e.push(x)) == entries_map(e).insert(x.0@, x.1@),
{
    assert(e.push(x).drop_last() =~= e);
}

/// The entries whose key is not `k`.
pub open spec fn key_differs(k: Seq<char>) -> spec_fn((String, String)) -> bool {
    |x: (String, String)| x.0@ != k
}

/// Dropping every entry of key `k` removes `k` from the map.
proof fn entries_map_without(e: Seq<(String, String)>, k: Seq<char>)
    ensures
        entries_map(e.filter(key_differs(k))) == entries_map(e).remove(k),
    decreases e.len(),
{
    reveal(Seq::filter);
    if e.len() == 0 {
        assert(entries_map(e).remove(k) =~= Map::empty());
    } else {
        entries_map_without(e.drop_last(), k);
        let f = e.drop_last().filter(key_differs(k));
        if e.last().0@ != k {
            assert(e.filter(key_differs(k)) == f.push(e.last()));
            entries_map_push(f, e.last());
        } else {
            assert(e.filter(key_differs(k)) == f);
        }
        assert(entries_map(e.filter(key_differs(k))) =~= entries_map(e).remove(k));
    }
}

impl StringMap {
    /// The empty map.
    pub fn new() -> (m: StringMap)
        ensures
            m@ == Map::<Seq<char>, Seq<char>>::empty(),
    {
        StringMap { entries: Vec::new() }
    }

    /// Whether the map has no key.
    pub fn is_empty(&self) -> (b: bool)
        ensures
            b == (self@.dom() == Set::<Seq<char>>::empty()),
    {
        if self.entries.len() == 0 {
            assert(self@ =~= Map::<Seq<char>, Seq<char>>::empty());
            true
        } else {
            assert(self@.dom().contains(self.entries@.last().0@));
            false
        }
    }

    /// The value of `key`, if the map holds it.
    pub fn get(&self, key: &str) -> (r: Option<&String>)
        ensures
            r matches Some(v) ==> self@.contains_key(key@) && self@[key@] == v@,
            r is None ==> !self@.contains_key(key@),
    {
        let k = chars_of(key);
        let mut i: usize = self.entries.len();
        while i > 0
            invariant
                i <= self.entries.len(),
                k@ == key@,
                forall|j: int| i <= j < self.entries.len() ==> #[trigger] self.entries@[j].0@ != key@,
            decreases i,
        {
            let kc = chars_of(self.entries[i - 1].0.as_str());
            assert(kc@ == self.entries@[i - 1].0@);
            if seq_eq(&kc, &k) {
                proof {
                    tail_without_key(self.entries@, (i - 1) as int, key@);
                }
                return Some(&self.entries[i - 1].1);
            }
            i = i - 1;
        }
        proof {
            tail_without_key_none(self.entries@, key@);
        }
        None
    }

    /// Whether the map holds `key`.
    pub fn contains_key(&self, key: &str) -> (b: bool)
        ensures
            b == self@.contains_key(key@),
    {
        match self.get(key) {
            Some(_) => true,
            None => false,
        }
    }

    /// Sets `key` to `value`.
    pub fn insert(&mut self, key: String, value: String)
        ensures
            final(self)@ == old(self)@.insert(key@, value@),
    {
        let ghost before = self.entries@;
        self.remove_entries(key.as_str());
        proof {
            entries_map_push(self.entries@, (key, value));
        }
        self.entries.push((key, value));
        assert(self@ =~= entries_map(before).insert(key@, value@));
    }

    /// Removes `key`, giving back the value it had.
    pub fn remove(&mut self, key: &str) -> (r: Option<String>)
        ensures
            final(self)@ == old(self)@.remove(key@),
            r matches Some(v) ==> old(self)@.contains_key(key@) && old(self)@[key@] == v@,
            r is None ==> !old(self)@.contains_key(key@),
    {
        let r = match self.get(key) {
            Some(v) => Some(v.clone()),
            None => None,
        };
        self.remove_entries(key);
        r
    }

    fn remove_entries(&mut self, key: &str)
        ensures
            final(self)@ == old(self)@.remove(key@),
    {
        let k = chars_of(key);
        let ghost pred = key_differs(key@);
        let mut kept: Vec<(String, String)> = Vec::new();
        let mut i: usize = 0;
        while i < self.entries.len()
            invariant
                i <= self.entries.len(),
                kept@ == self.entries@.subrange(0, i as int).filter(pred),
                k@ == key@,
                pred == key_differs(key@),
            decreases self.entries.len() - i,
        {
            let ghost pre = self.entries@.subrange(0, i as int);
            let kc = chars_of(self.entries[i].0.as_str());
            assert(self.entries@.subrange(0, i + 1).drop_last() =~= pre);
            proof {
                reveal(Seq::filter);
            }
            assert(kc@ == self.entries@[i as int].0@);
            assert(self.entries@.subrange(0, i + 1).last() == self.entries@[i as int]);
            if !seq_eq(&kc, &k) {
                let e = (self.entries[i].0.clone(), self.entries[i].1.clone());
                assert(e == self.entries@[i as int]);
                kept.push(e);
            }
            i = i + 1;
        }
        assert(self.entries@.subrange(0, self.entries.len() as int) =~= self.entries@);
        proof {
            entries_map_without(self.entries@, key@);
        }
        self.entries = kept;
    }

    /// The keys and values, in the order they were set.
    pub fn pairs(&self) -> (r: Vec<(String, String)>)
        ensures
            entries_map(r@) == self@,
    {
        let mut r: Vec<(String, String)> = Vec::new();
        let mut i: usize = 0;
        while i < self.entries.len()
            invariant
                i <= self.entries.len(),
                r@ == self.entries@.subrange(0, i as int),
            decreases self.entries.len() - i,
        {
            r.push((self.entries[i].0.clone(), self.entries[i].1.clone()));
            i = i + 1;
            assert(r@ =~= self.entries@.subrange(0, i as int));
        }
        assert(r@ =~= self.entries@);
        r
    }
}

impl Clone for StringMap {
    fn clone(&self) -> (r: Self)
        ensures
            r@ == self@,
    {
        StringMap { entries: self.pairs() }
    }
}

proof fn tail_without_key(e: Seq<(String, String)>, i: int, k: Seq<char>)
    requires
        0 <= i < e.len(),
        e[i].0@ == k,
        forall|j: int| i < j < e.len() ==> #[trigger] e[j].0@ != k,
    ensures
        entries_map(e).contains_key(k),
        entries_map(e)[k] == e[i].1@,
    decreases e.len(),
{
    if i < e.len() - 1 {
        assert(e.drop_last()[i] == e[i]);
        assert forall|j: int| i < j < e.drop_last().len() implies #[trigger] e.drop_last()[j].0@ != k by {
            assert(e.drop_last()[j] == e[j]);
        }
        assert(e.last().0@ != k) by {
            assert(e[e.len() - 1] == e.last());
        }
        tail_without_key(e.drop_last(), i, k);
    } else {
        assert(e.last() == e[i]);
    }
}

proof fn tail_without_key_none(e: Seq<(String, String)>, k: Seq<char>)
    requires
        forall|j: int| 0 <= j < e.len() ==> #[trigger] e[j].0@ != k,
    ensures
        !entries_map(e).contains_key(k),
    decreases e.len(),
{
    if e.len() > 0 {
        assert forall|j: int| 0 <= j < e.drop_last().len() implies #[trigger] e.drop_last()[j].0@ != k by {
            assert(e.drop_last()[j] == e[j]);
        }
        assert(e.last().0@ != k) by {
            assert(e[e.len() - 1] == e.last());
        }
        tail_without_key_none(e.drop_last(), k);
    }
}

} // verus!
