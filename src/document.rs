//! The decrypted secret document: named credentials with distinct names.

use crate::primitives::{names_distinct, pairs_map};
use vstd::prelude::*;

verus! {

/// A set of named credentials, kept as pairs in which no name occurs twice.
pub struct SecretDocument {
    pairs: Vec<(String, String)>,
}

/// The value stored under `name`, if any.
pub open spec fn lookup(m: Map<Seq<char>, Seq<char>>, name: Seq<char>) -> Option<Seq<char>> {
    if m.contains_key(name) {
        Some(m[name])
    } else {
        None
    }
}

/// Where names are distinct, the pair at `i` is what the map holds for its name.
pub proof fn lemma_pair_in_map(s: Seq<(String, String)>, i: int)
    requires
        names_distinct(s),
        0 <= i < s.len(),
    ensures
        pairs_map(s).contains_key(s[i].0@),
        pairs_map(s)[s[i].0@] == s[i].1@,
{
    let k = s[i].0@;
    assert(exists|j: int| 0 <= j < s.len() && s[j].0@ == k);
    let j = choose|j: int| 0 <= j < s.len() && s[j].0@ == k;
    assert(j == i);
}

impl View for SecretDocument {
    type V = Map<Seq<char>, Seq<char>>;

    closed spec fn view(&self) -> Map<Seq<char>, Seq<char>> {
        pairs_map(self.pairs@)
    }
}

impl SecretDocument {
    /// The document's names are distinct.
    pub closed spec fn wf(&self) -> bool {
        names_distinct(self.pairs@)
    }

    /// The pairs in the order in which they are kept.
    pub closed spec fn pairs_spec(&self) -> Seq<(String, String)> {
        self.pairs@
    }

    /// A document with no secrets.
    pub fn empty() -> (r: SecretDocument)
        ensures
            r.wf(),
            r@ == Map::<Seq<char>, Seq<char>>::empty(),
    {
        let r = SecretDocument { pairs: Vec::new() };
        assert(r@ =~= Map::<Seq<char>, Seq<char>>::empty());
        r
    }

    /// A document holding `pairs`, whose names must be distinct.
    pub fn from_pairs(pairs: Vec<(String, String)>) -> (r: SecretDocument)
        requires
            names_distinct(pairs@),
        ensures
            r.wf(),
            r@ == pairs_map(pairs@),
            r.pairs_spec() == pairs@,
    {
        SecretDocument { pairs }
    }

    /// The pairs of the document.
    pub fn pairs(&self) -> (r: &Vec<(String, String)>)
        ensures
            r@ == self.pairs_spec(),
            pairs_map(r@) == self@,
            self.wf() ==> names_distinct(r@),
    {
        &self.pairs
    }

    fn position(&self, name: &str) -> (r: Option<usize>)
        ensures
            match r {
                Some(i) => i < self.pairs@.len() && self.pairs@[i as int].0@ == name@,
                None => forall|i: int| 0 <= i < self.pairs@.len() ==> self.pairs@[i].0@ != name@,
            },
    {
        let target = name.to_owned();
        let mut i: usize = 0;
        while i < self.pairs.len()
            invariant
                i <= self.pairs@.len(),
                target@ == name@,
                forall|j: int| 0 <= j < i ==> self.pairs@[j].0@ != name@,
            decreases self.pairs@.len() - i,
        {
            if self.pairs[i].0 == target {
                return Some(i);
            }
            i = i + 1;
        }
        None
    }

    /// The value stored under `name`.
    pub fn get(&self, name: &str) -> (r: Option<String>)
        requires
            self.wf(),
        ensures
            match r {
                Some(v) => lookup(self@, name@) == Some(v@),
                None => lookup(self@, name@) is None,
            },
    {
        match self.position(name) {
            Some(i) => {
                proof { lemma_pair_in_map(self.pairs@, i as int); }
                Some(self.pairs[i].1.clone())
            },
            None => {
                assert(!self@.contains_key(name@));
                None
            },
        }
    }

    /// Whether a value is stored under `name`.
    pub fn contains(&self, name: &str) -> (r: bool)
        requires
            self.wf(),
        ensures
            r == self@.contains_key(name@),
    {
        match self.position(name) {
            Some(i) => {
                proof { lemma_pair_in_map(self.pairs@, i as int); }
                true
            },
            None => false,
        }
    }

    /// Stores `value` under `name`, replacing what was there.
    pub fn insert(&mut self, name: &str, value: &str)
        requires
            old(self).wf(),
        ensures
            final(self).wf(),
            final(self)@ == old(self)@.insert(name@, value@),
    {
        let ghost before = self.pairs@;
        let entry = (name.to_owned(), value.to_owned());
        match self.position(name) {
            Some(i) => {
                self.pairs.set(i, entry);
                let ghost after = self.pairs@;
                assert(after == before.update(i as int, entry));
                assert(names_distinct(after));
                assert forall|k: Seq<char>|
                    #![trigger pairs_map(after).contains_key(k)]
                    #![trigger pairs_map(before).insert(name@, value@).contains_key(k)]
                    pairs_map(after).contains_key(k) == pairs_map(before).insert(name@, value@).contains_key(k)
                    && (pairs_map(after).contains_key(k) ==> pairs_map(after)[k] == pairs_map(before).insert(name@, value@)[k]) by {
                    if k == name@ {
                        lemma_pair_in_map(after, i as int);
                    } else {
                        if pairs_map(after).contains_key(k) {
                            let j = choose|j: int| 0 <= j < after.len() && after[j].0@ == k;
                            lemma_pair_in_map(after, j);
                            lemma_pair_in_map(before, j);
                        }
                        if pairs_map(before).contains_key(k) {
                            let j = choose|j: int| 0 <= j < before.len() && before[j].0@ == k;
                            lemma_pair_in_map(before, j);
                            assert(after[j] == before[j]);
                        }
                    }
                }
                assert(pairs_map(after) =~= pairs_map(before).insert(name@, value@));
            },
            None => {
                self.pairs.push(entry);
                let ghost after = self.pairs@;
                assert(after == before.push(entry));
                assert(names_distinct(after));
                assert forall|k: Seq<char>|
                    #![trigger pairs_map(after).contains_key(k)]
                    #![trigger pairs_map(before).insert(name@, value@).contains_key(k)]
                    pairs_map(after).contains_key(k) == pairs_map(before).insert(name@, value@).contains_key(k)
                    && (pairs_map(after).contains_key(k) ==> pairs_map(after)[k] == pairs_map(before).insert(name@, value@)[k]) by {
                    if k == name@ {
                        lemma_pair_in_map(after, before.len() as int);
                    } else {
                        if pairs_map(after).contains_key(k) {
                            let j = choose|j: int| 0 <= j < after.len() && after[j].0@ == k;
                            lemma_pair_in_map(after, j);
                            lemma_pair_in_map(before, j);
                        }
                        if pairs_map(before).contains_key(k) {
                            let j = choose|j: int| 0 <= j < before.len() && before[j].0@ == k;
                            lemma_pair_in_map(before, j);
                            assert(after[j] == before[j]);
                        }
                    }
                }
                assert(pairs_map(after) =~= pairs_map(before).insert(name@, value@));
            },
        }
    }

    /// Removes whatever is stored under `name`; nothing happens where there is none.
    pub fn remove(&mut self, name: &str)
        requires
            old(self).wf(),
        ensures
            final(self).wf(),
            final(self)@ == old(self)@.remove(name@),
    {
        let ghost before = self.pairs@;
        match self.position(name) {
            Some(i) => {
                self.pairs.remove(i);
                let ghost after = self.pairs@;
                assert(after == before.remove(i as int));
                assert forall|a: int, b: int|
                    0 <= a < after.len() && 0 <= b < after.len() && a != b implies after[a].0@ != after[b].0@ by {
                    let a2 = if a < i { a } else { a + 1 };
                    let b2 = if b < i { b } else { b + 1 };
                    assert(after[a] == before[a2]);
                    assert(after[b] == before[b2]);
                }
                assert forall|k: Seq<char>|
                    #![trigger pairs_map(after).contains_key(k)]
                    #![trigger pairs_map(before).remove(name@).contains_key(k)]
                    pairs_map(after).contains_key(k) == pairs_map(before).remove(name@).contains_key(k)
                    && (pairs_map(after).contains_key(k) ==> pairs_map(after)[k] == pairs_map(before).remove(name@)[k]) by {
                    if pairs_map(after).contains_key(k) {
                        let j = choose|j: int| 0 <= j < after.len() && after[j].0@ == k;
                        let j2 = if j < i { j } else { j + 1 };
                        assert(after[j] == before[j2]);
                        lemma_pair_in_map(after, j);
                        lemma_pair_in_map(before, j2);
                    }
                    if pairs_map(before).contains_key(k) && k != name@ {
                        let j = choose|j: int| 0 <= j < before.len() && before[j].0@ == k;
                        lemma_pair_in_map(before, j);
                        let j2 = if j < i { j } else { j - 1 };
                        assert(after[j2] == before[j]);
                    }
                }
                assert(pairs_map(after) =~= pairs_map(before).remove(name@));
            },
            None => {
                assert(self@ =~= old(self)@.remove(name@));
            },
        }
    }
}

}
