//! A map from strings to values.

use vstd::prelude::*;
use vstd::string::*;

use crate::text;

verus! {

/// A map from strings to values, kept as a list in which no key occurs twice. Its keys are handed
/// out, its values are taken out, and they are changed in place; vstd's `StringHashMap` does none
/// of these.
#[derive(Debug)]
pub struct Table<V> {
    entries: Vec<(String, V)>,
}

/// True where position `i` of the list holds the key `k`.
spec fn key_at<V>(entries: Seq<(String, V)>, i: int, k: Seq<char>) -> bool {
    0 <= i < entries.len() && entries[i].0@ == k
}

/// True where no key occurs twice.
spec fn distinct<V>(entries: Seq<(String, V)>) -> bool {
    forall|i: int, j: int|
        0 <= i < entries.len() && 0 <= j < entries.len() && i != j ==> (#[trigger] entries[i]).0@ != (
        #[trigger] entries[j]).0@
}

/// The map that a list stands for.
spec fn contents<V>(entries: Seq<(String, V)>) -> Map<Seq<char>, V> {
    Map::new(
        |k: Seq<char>| exists|i: int| key_at(entries, i, k),
        |k: Seq<char>| entries[choose|i: int| key_at(entries, i, k)].1,
    )
}

/// In a list without double keys, a position that holds a key gives the key's value.
proof fn lemma_contents<V>(entries: Seq<(String, V)>, i: int, k: Seq<char>)
    requires
        distinct(entries),
        key_at(entries, i, k),
    ensures
        contents(entries).contains_key(k),
        contents(entries)[k] == entries[i].1,
{
    let j = choose|j: int| key_at(entries, j, k);
    assert(key_at(entries, j, k));
    if i != j {
        assert(entries[i].0@ != entries[j].0@);
    }
}

/// Changing the value at a position changes the value of its key, and of no other.
proof fn lemma_updated<V>(before: Seq<(String, V)>, i: int, entry: (String, V))
    requires
        distinct(before),
        key_at(before, i, entry.0@),
    ensures
        distinct(before.update(i, entry)),
        contents(before.update(i, entry)) == contents(before).insert(entry.0@, entry.1),
{
    let after = before.update(i, entry);
    assert forall|a: int, b: int|
        0 <= a < after.len() && 0 <= b < after.len() && a != b implies (#[trigger] after[a]).0@ != (
    #[trigger] after[b]).0@ by {
        assert(before[a].0@ == after[a].0@);
        assert(before[b].0@ == after[b].0@);
    }
    assert forall|k: Seq<char>| contents(after).contains_key(k) <==> contents(before).contains_key(
        k,
    ) by {
        assert(forall|j: int| key_at(after, j, k) <==> key_at(before, j, k));
    }
    assert forall|k: Seq<char>| contents(after).contains_key(k) && k != entry.0@ implies contents(
        after,
    )[k] == contents(before)[k] by {
        let j = choose|j: int| key_at(after, j, k);
        assert(key_at(before, j, k));
        lemma_contents(after, j, k);
        lemma_contents(before, j, k);
    }
    lemma_contents(before, i, entry.0@);
    lemma_contents(after, i, entry.0@);
    assert(contents(after) =~= contents(before).insert(entry.0@, entry.1));
}

impl<V> View for Table<V> {
    type V = Map<Seq<char>, V>;

    closed spec fn view(&self) -> Map<Seq<char>, V> {
        contents(self.entries@)
    }
}

impl<V> Table<V> {
    /// No key occurs twice.
    pub closed spec fn wf(self) -> bool {
        distinct(self.entries@)
    }

    /// The empty map.
    pub fn new() -> (r: Table<V>)
        ensures
            r.wf(),
            r@ == Map::<Seq<char>, V>::empty(),
    {
        let r = Table { entries: Vec::new() };
        proof {
            assert forall|k: Seq<char>| !r@.contains_key(k) by {
                assert(forall|i: int| !key_at(r.entries@, i, k));
            }
            assert(r@ =~= Map::empty());
        }
        r
    }

    fn position(&self, key: &str) -> (r: Option<usize>)
        requires
            self.wf(),
        ensures
            match r {
                Some(i) => key_at(self.entries@, i as int, key@) && self@.contains_key(key@)
                    && self@[key@] == self.entries@[i as int].1,
                None => !self@.contains_key(key@) && forall|i: int|
                    !key_at(self.entries@, i, key@),
            },
    {
        let mut i: usize = 0;
        while i < self.entries.len()
            invariant
                self.wf(),
                i <= self.entries@.len(),
                forall|j: int| 0 <= j < i ==> !key_at(self.entries@, j, key@),
            decreases self.entries@.len() - i,
        {
            if text::same(self.entries[i].0.as_str(), key) {
                proof {
                    lemma_contents(self.entries@, i as int, key@);
                }
                return Some(i);
            }
            i += 1;
        }
        None
    }

    /// True when the key has a value.
    pub fn contains_key(&self, key: &str) -> (r: bool)
        requires
            self.wf(),
        ensures
            r == self@.contains_key(key@),
    {
        self.position(key).is_some()
    }

    /// The value of a key.
    pub fn get(&self, key: &str) -> (r: Option<&V>)
        requires
            self.wf(),
        ensures
            match r {
                Some(v) => self@.contains_key(key@) && *v == self@[key@],
                None => !self@.contains_key(key@),
            },
    {
        match self.position(key) {
            Some(i) => Some(&self.entries[i].1),
            None => None,
        }
    }

    /// The value of a key, to be changed.
    pub fn get_mut(&mut self, key: &str) -> (r: Option<&mut V>)
        requires
            old(self).wf(),
        ensures
            final(self).wf(),
            match r {
                Some(v) => {
                    &&& old(self)@.contains_key(key@)
                    &&& *v == old(self)@[key@]
                    &&& final(self)@ == old(self)@.insert(key@, *final(v))
                },
                None => !old(self)@.contains_key(key@) && final(self)@ == old(self)@,
            },
    {
        let ghost before = self.entries@;
        match self.position(key) {
            Some(i) => {
                let v = &mut self.entries[i].1;
                proof {
                    lemma_updated(before, i as int, (before[i as int].0, *final(v)));
                }
                Some(v)
            },
            None => None,
        }
    }

    /// Gives a key a value, in place of the one it had.
    pub fn insert(&mut self, key: &str, value: V)
        requires
            old(self).wf(),
        ensures
            final(self).wf(),
            final(self)@ == old(self)@.insert(key@, value),
    {
        let ghost before = self.entries@;
        match self.position(key) {
            Some(i) => {
                let k = key.to_owned();
                self.entries.set(i, (k, value));
                proof {
                    lemma_updated(before, i as int, (k, value));
                }
            },
            None => {
                let k = key.to_owned();
                self.entries.push((k, value));
                proof {
                    let after = self.entries@;
                    assert(after =~= before.push((k, value)));
                    assert(forall|j: int| 0 <= j < before.len() ==> after[j] == before[j]);
                    assert forall|a: int, b: int|
                        0 <= a < after.len() && 0 <= b < after.len() && a != b implies (
                    #[trigger] after[a]).0@ != (#[trigger] after[b]).0@ by {
                        if a == before.len() {
                            assert(!key_at(before, b, key@));
                        } else if b == before.len() {
                            assert(!key_at(before, a, key@));
                        } else {
                            assert(before[a].0@ != before[b].0@);
                        }
                    }
                    lemma_contents(after, before.len() as int, key@);
                    assert forall|k2: Seq<char>| k2 != key@ implies (contents(after).contains_key(
                        k2,
                    ) <==> contents(before).contains_key(k2)) by {
                        if contents(after).contains_key(k2) {
                            let j = choose|j: int| key_at(after, j, k2);
                            assert(key_at(before, j, k2));
                        }
                        if contents(before).contains_key(k2) {
                            let j = choose|j: int| key_at(before, j, k2);
                            assert(key_at(after, j, k2));
                        }
                    }
                    assert forall|k2: Seq<char>|
                        contents(before).contains_key(k2) implies contents(after)[k2] == contents(
                        before,
                    )[k2] by {
                        let j = choose|j: int| key_at(before, j, k2);
                        assert(key_at(after, j, k2));
                        lemma_contents(after, j, k2);
                        lemma_contents(before, j, k2);
                    }
                    assert(contents(after) =~= contents(before).insert(key@, value));
                }
            },
        }
    }

    /// Takes a key and its value out.
    pub fn remove(&mut self, key: &str) -> (r: Option<V>)
        requires
            old(self).wf(),
        ensures
            final(self).wf(),
            final(self)@ == old(self)@.remove(key@),
            match r {
                Some(v) => old(self)@.contains_key(key@) && v == old(self)@[key@],
                None => !old(self)@.contains_key(key@),
            },
    {
        let ghost before = self.entries@;
        match self.position(key) {
            Some(i) => {
                let (_, v) = self.entries.remove(i);
                proof {
                    let after = self.entries@;
                    assert(after =~= before.remove(i as int));
                    assert forall|a: int, b: int|
                        0 <= a < after.len() && 0 <= b < after.len() && a != b implies (
                    #[trigger] after[a]).0@ != (#[trigger] after[b]).0@ by {
                        let x = if a < i { a } else { a + 1 };
                        let y = if b < i { b } else { b + 1 };
                        assert(before[x].0@ != before[y].0@);
                    }
                    assert forall|k2: Seq<char>| contents(after).contains_key(k2) <==> (contents(
                        before,
                    ).contains_key(k2) && k2 != key@) by {
                        if contents(after).contains_key(k2) {
                            let j = choose|j: int| key_at(after, j, k2);
                            let x = if j < i { j } else { j + 1 };
                            assert(key_at(before, x, k2));
                            assert(before[x].0@ != before[i as int].0@);
                        }
                        if contents(before).contains_key(k2) && k2 != key@ {
                            let j = choose|j: int| key_at(before, j, k2);
                            let x = if j < i { j } else { j - 1 };
                            assert(key_at(after, x, k2));
                        }
                    }
                    assert forall|k2: Seq<char>|
                        contents(after).contains_key(k2) implies contents(after)[k2] == contents(
                        before,
                    )[k2] by {
                        let j = choose|j: int| key_at(after, j, k2);
                        let x = if j < i { j } else { j + 1 };
                        assert(key_at(before, x, k2));
                        lemma_contents(after, j, k2);
                        lemma_contents(before, x, k2);
                    }
                    assert(contents(after) =~= contents(before).remove(key@));
                }
                Some(v)
            },
            None => {
                assert(self@.remove(key@) =~= self@);
                None
            },
        }
    }

    /// The keys, each once.
    pub fn keys(&self) -> (r: Vec<String>)
        requires
            self.wf(),
        ensures
            text::views(r@).no_duplicates(),
            forall|k: Seq<char>| #[trigger] text::views(r@).contains(k) <==> self@.contains_key(k),
    {
        let mut r: Vec<String> = Vec::new();
        let mut i: usize = 0;
        while i < self.entries.len()
            invariant
                i <= self.entries@.len(),
                r@.len() == i,
                forall|j: int| 0 <= j < i ==> (#[trigger] r@[j])@ == self.entries@[j].0@,
            decreases self.entries@.len() - i,
        {
            r.push(self.entries[i].0.clone());
            i += 1;
        }
        proof {
            let ks = text::views(r@);
            assert forall|a: int, b: int|
                0 <= a < ks.len() && 0 <= b < ks.len() && a != b implies ks[a] != ks[b] by {
                assert(ks[a] == r@[a]@ && ks[b] == r@[b]@);
                assert(self.entries@[a].0@ != self.entries@[b].0@);
            }
            assert forall|k: Seq<char>| #[trigger] ks.contains(k) <==> self@.contains_key(k) by {
                if ks.contains(k) {
                    let j = choose|j: int| 0 <= j < ks.len() && ks[j] == k;
                    assert(ks[j] == r@[j]@);
                    assert(key_at(self.entries@, j, k));
                }
                if self@.contains_key(k) {
                    let j = choose|j: int| key_at(self.entries@, j, k);
                    assert(key_at(self.entries@, j, k));
                    assert(ks[j] == r@[j]@);
                    assert(ks[j] == k);
                }
            }
        }
        r
    }
}

} // verus!
