//! The key/value tables of a chain specification: raw storage and code substitutes.

use vstd::prelude::*;
use crate::assoc::{assoc_map, unique_keys, has_key, lemma_assoc_finite, lemma_assoc_push, lemma_assoc_update, lemma_assoc_insert_at};

verus! {

/// Whether two byte strings are equal.
pub fn same_bytes(a: &Vec<u8>, b: &Vec<u8>) -> (r: bool)
    ensures
        r == (a@ == b@),
{
    if a.len() != b.len() {
        return false;
    }
    let mut i: usize = 0;
    while i < a.len()
        invariant
            a@.len() == b@.len(),
            i <= a@.len(),
            forall|j: int| 0 <= j < i ==> a@[j] == b@[j],
        decreases a@.len() - i,
    {
        if a[i] != b[i] {
            return false;
        }
        i = i + 1;
    }
    assert(a@ =~= b@);
    true
}

/// The pairs of a raw storage table, as byte sequences.
pub open spec fn byte_pairs(s: Seq<(Vec<u8>, Vec<u8>)>) -> Seq<(Seq<u8>, Seq<u8>)> {
    s.map_values(|e: (Vec<u8>, Vec<u8>)| (e.0@, e.1@))
}

/// A raw storage table: values under byte-string keys, each key at most once.
#[derive(Debug)]
pub struct StorageMap {
    entries: Vec<(Vec<u8>, Vec<u8>)>,
}

impl View for StorageMap {
    type V = Map<Seq<u8>, Seq<u8>>;

    closed spec fn view(&self) -> Map<Seq<u8>, Seq<u8>> {
        assoc_map(byte_pairs(self.entries@))
    }
}

impl StorageMap {
    /// The keys are unique.
    pub closed spec fn wf(&self) -> bool {
        unique_keys(byte_pairs(self.entries@))
    }

    /// An empty table.
    pub fn new() -> (r: StorageMap)
        ensures
            r.wf(),
            r@ == Map::<Seq<u8>, Seq<u8>>::empty(),
    {
        let r = StorageMap { entries: Vec::new() };
        assert(byte_pairs(r.entries@) =~= Seq::<(Seq<u8>, Seq<u8>)>::empty());
        r
    }

    /// The pairs of the table, in the order in which their keys were first set.
    pub fn entries(&self) -> (r: &Vec<(Vec<u8>, Vec<u8>)>)
        requires
            self.wf(),
        ensures
            assoc_map(byte_pairs(r@)) == self@,
            unique_keys(byte_pairs(r@)),
    {
        &self.entries
    }

    /// Sets the value under `key`, replacing any earlier one.
    pub fn set(&mut self, key: Vec<u8>, value: Vec<u8>)
        requires
            old(self).wf(),
        ensures
            final(self).wf(),
            final(self)@ == old(self)@.insert(key@, value@),
    {
        let ghost pairs = byte_pairs(self.entries@);
        let mut i: usize = 0;
        while i < self.entries.len()
            invariant
                *self == *old(self),
                pairs == byte_pairs(self.entries@),
                unique_keys(pairs),
                i <= self.entries@.len(),
                forall|j: int| 0 <= j < i ==> #[trigger] pairs[j].0 != key@,
            decreases self.entries@.len() - i,
        {
            if same_bytes(&self.entries[i].0, &key) {
                proof {
                    lemma_assoc_update(pairs, i as int, value@);
                }
                self.entries[i] = (key, value);
                assert(byte_pairs(self.entries@) =~= pairs.update(i as int, (pairs[i as int].0, value@)));
                return;
            }
            i = i + 1;
        }
        proof {
            assert(!has_key(pairs, key@));
            lemma_assoc_push(pairs, key@, value@);
        }
        self.entries.push((key, value));
        assert(byte_pairs(self.entries@) =~= pairs.push((key@, value@)));
    }
}

/// The pairs of a code-substitute table, with the code as a byte sequence.
pub open spec fn code_pairs(s: Seq<(u64, Vec<u8>)>) -> Seq<(u64, Seq<u8>)> {
    s.map_values(|e: (u64, Vec<u8>)| (e.0, e.1@))
}

/// The block numbers of `s` strictly increase.
pub open spec fn strictly_ascending(s: Seq<(u64, Seq<u8>)>) -> bool {
    forall|i: int, j: int| 0 <= i < j < s.len() ==> s[i].0 < s[j].0
}

/// Code blobs keyed by the block number from which each replaces the chain's
/// code, kept in ascending order of block number.
#[derive(Debug)]
pub struct CodeSubstitutes {
    entries: Vec<(u64, Vec<u8>)>,
}

impl View for CodeSubstitutes {
    type V = Map<u64, Seq<u8>>;

    closed spec fn view(&self) -> Map<u64, Seq<u8>> {
        assoc_map(code_pairs(self.entries@))
    }
}

impl CodeSubstitutes {
    /// The table holds finitely many keys.
    pub proof fn lemma_finite(&self)
        ensures
            self@.dom().finite(),
    {
        lemma_assoc_finite(code_pairs(self.entries@));
    }

    /// The block numbers ascend strictly.
    pub closed spec fn wf(&self) -> bool {
        strictly_ascending(code_pairs(self.entries@))
    }

    /// An empty table.
    pub fn new() -> (r: CodeSubstitutes)
        ensures
            r.wf(),
            r@ == Map::<u64, Seq<u8>>::empty(),
    {
        let r = CodeSubstitutes { entries: Vec::new() };
        assert(code_pairs(r.entries@) =~= Seq::<(u64, Seq<u8>)>::empty());
        r
    }

    /// The pairs of the table, in ascending order of block number.
    pub fn entries(&self) -> (r: &Vec<(u64, Vec<u8>)>)
        requires
            self.wf(),
        ensures
            assoc_map(code_pairs(r@)) == self@,
            strictly_ascending(code_pairs(r@)),
    {
        &self.entries
    }

    /// Sets the code that takes over at `block`, replacing any earlier one there.
    pub fn set(&mut self, block: u64, code: Vec<u8>)
        requires
            old(self).wf(),
        ensures
            final(self).wf(),
            final(self)@ == old(self)@.insert(block, code@),
    {
        let ghost pairs = code_pairs(self.entries@);
        assert(unique_keys(pairs)) by {
            assert forall|a: int, b: int| 0 <= a < pairs.len() && 0 <= b < pairs.len() && a != b implies pairs[a].0
                != pairs[b].0 by {
                if a < b {
                    assert(pairs[a].0 < pairs[b].0);
                } else {
                    assert(pairs[b].0 < pairs[a].0);
                }
            }
        }
        let mut i: usize = 0;
        while i < self.entries.len() && self.entries[i].0 < block
            invariant
                *self == *old(self),
                pairs == code_pairs(self.entries@),
                strictly_ascending(pairs),
                i <= self.entries@.len(),
                forall|j: int| 0 <= j < i ==> #[trigger] pairs[j].0 < block,
            decreases self.entries@.len() - i,
        {
            i = i + 1;
        }
        if i < self.entries.len() && self.entries[i].0 == block {
            proof {
                lemma_assoc_update(pairs, i as int, code@);
            }
            self.entries[i] = (block, code);
            assert(code_pairs(self.entries@) =~= pairs.update(i as int, (pairs[i as int].0, code@)));
        } else {
            proof {
                assert(!has_key(pairs, block)) by {
                    if has_key(pairs, block) {
                        let j = choose|j: int| 0 <= j < pairs.len() && pairs[j].0 == block;
                        if j > i as int {
                            assert(pairs[i as int].0 < pairs[j].0);
                        }
                    }
                }
                lemma_assoc_insert_at(pairs, i as int, block, code@);
            }
            self.entries.insert(i, (block, code));
            assert(code_pairs(self.entries@) =~= pairs.insert(i as int, (block, code@)));
        }
    }
}

} // verus!
