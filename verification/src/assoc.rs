use vstd::prelude::*;

use crate::crypto::ct_eq;

verus! {

/// One partition of the keyed store: an association list from
/// byte-string keys to records, each key held at most once.
///
/// Partition isolation is structural: each partition is its own
/// `AssocMap` value, so a write into one can never reach another.
pub struct AssocMap<V: View> {
    entries: Vec<(Vec<u8>, V)>,
}

/// Whether some entry of `es` carries the key `k`.
pub open spec fn entries_contain<V: View>(es: Seq<(Vec<u8>, V)>, k: Seq<u8>) -> bool {
    exists|i: int| 0 <= i < es.len() && es[i].0@ == k
}

/// The abstract value stored under `k`, meaningful only when some entry
/// carries `k`.
pub open spec fn entries_value<V: View>(es: Seq<(Vec<u8>, V)>, k: Seq<u8>) -> V::V {
    es[choose|i: int| 0 <= i < es.len() && es[i].0@ == k].1@
}

/// No two entries of `es` carry the same key.
pub open spec fn entries_unique<V: View>(es: Seq<(Vec<u8>, V)>) -> bool {
    forall|i: int, j: int| 0 <= i < j < es.len() ==> es[i].0@ != es[j].0@
}

/// With unique keys, the entry at a known index decides membership and
/// the stored value.
proof fn lemma_entry_value<V: View>(es: Seq<(Vec<u8>, V)>, k: Seq<u8>, i: int)
    requires
        entries_unique(es),
        0 <= i < es.len(),
        es[i].0@ == k,
    ensures
        entries_contain(es, k),
        entries_value(es, k) == es[i].1@,
{
    assert(entries_contain(es, k));
    let j = choose|j: int| 0 <= j < es.len() && es[j].0@ == k;
    if i < j {
        assert(es[i].0@ != es[j].0@);
    }
    if j < i {
        assert(es[j].0@ != es[i].0@);
    }
}

impl<V: View> View for AssocMap<V> {
    type V = Map<Seq<u8>, V::V>;

    closed spec fn view(&self) -> Map<Seq<u8>, V::V> {
        Map::new(
            |k: Seq<u8>| entries_contain(self.entries@, k),
            |k: Seq<u8>| entries_value(self.entries@, k),
        )
    }
}

impl<V: View> AssocMap<V> {
    /// Every key occurs in at most one entry, so lookups are
    /// unambiguous.
    pub closed spec fn wf(&self) -> bool {
        entries_unique(self.entries@)
    }

    /// The empty partition.
    pub fn new() -> (r: AssocMap<V>)
        ensures
            r.wf(),
            r@ == Map::<Seq<u8>, V::V>::empty(),
    {
        let r = AssocMap { entries: Vec::new() };
        proof {
            assert(r@ =~= Map::<Seq<u8>, V::V>::empty());
        }
        r
    }

    /// The record stored under `key`, or `None` when the key was never
    /// written.
    pub fn get(&self, key: &Vec<u8>) -> (r: Option<&V>)
        requires
            self.wf(),
        ensures
            match r {
                Some(v) => self@.contains_key(key@) && v@ == self@[key@],
                None => !self@.contains_key(key@),
            },
    {
        let n = self.entries.len();
        let mut i: usize = 0;
        while i < n
            invariant
                self.wf(),
                n == self.entries@.len(),
                0 <= i <= n,
                forall|j: int| 0 <= j < i ==> self.entries@[j].0@ != key@,
            decreases n - i,
        {
            if ct_eq(&self.entries[i].0, key) {
                proof {
                    lemma_entry_value(self.entries@, key@, i as int);
                }
                return Some(&self.entries[i].1);
            }
            i += 1;
        }
        proof {
            assert(!entries_contain(self.entries@, key@));
        }
        None
    }

    /// Stores `value` under `key`, overwriting any prior record for the
    /// key and touching no other key.
    pub fn set(&mut self, key: Vec<u8>, value: V)
        requires
            old(self).wf(),
        ensures
            final(self).wf(),
            final(self)@ == old(self)@.insert(key@, value@),
    {
        let n = self.entries.len();
        let mut i: usize = 0;
        while i < n
            invariant
                self == old(self),
                self.wf(),
                n == self.entries@.len(),
                0 <= i <= n,
                forall|j: int| 0 <= j < i ==> self.entries@[j].0@ != key@,
            decreases n - i,
        {
            if ct_eq(&self.entries[i].0, &key) {
                let ghost es_old = self.entries@;
                let ghost ii = i as int;
                self.entries[i] = (key, value);
                proof {
                    let es_new = self.entries@;
                    assert(es_new == es_old.update(ii, es_new[ii]));
                    assert forall|p: int, q: int| 0 <= p < q < es_new.len() implies es_new[p].0@
                        != es_new[q].0@ by {
                        assert(es_old[p].0@ != es_old[q].0@);
                    }
                    lemma_entry_value(es_new, key@, ii);
                    assert forall|k: Seq<u8>| k != key@ implies entries_contain(es_new, k)
                        == entries_contain(es_old, k) by {
                        if entries_contain(es_new, k) {
                            let w = choose|w: int|
                                0 <= w < es_new.len() && es_new[w].0@ == k;
                            assert(w != ii);
                            assert(es_old[w].0@ == k);
                        }
                        if entries_contain(es_old, k) {
                            let w = choose|w: int|
                                0 <= w < es_old.len() && es_old[w].0@ == k;
                            assert(w != ii);
                            assert(es_new[w].0@ == k);
                        }
                    }
                    assert forall|k: Seq<u8>|
                        k != key@ && entries_contain(es_new, k) implies entries_value(es_new, k)
                        == entries_value(es_old, k) by {
                        let w = choose|w: int| 0 <= w < es_new.len() && es_new[w].0@ == k;
                        assert(w != ii);
                        lemma_entry_value(es_new, k, w);
                        lemma_entry_value(es_old, k, w);
                    }
                    assert(self@ =~= old(self)@.insert(key@, value@));
                }
                return;
            }
            i += 1;
        }
        let ghost es_old = self.entries@;
        self.entries.push((key, value));
        proof {
            let es_new = self.entries@;
            let nn = es_old.len() as int;
            assert(es_new == es_old.push(es_new[nn]));
            assert forall|p: int, q: int| 0 <= p < q < es_new.len() implies es_new[p].0@
                != es_new[q].0@ by {
                if q < nn {
                    assert(es_old[p].0@ != es_old[q].0@);
                } else {
                    assert(es_old[p].0@ != key@);
                }
            }
            lemma_entry_value(es_new, key@, nn);
            assert forall|k: Seq<u8>| k != key@ implies entries_contain(es_new, k)
                == entries_contain(es_old, k) by {
                if entries_contain(es_new, k) {
                    let w = choose|w: int| 0 <= w < es_new.len() && es_new[w].0@ == k;
                    assert(w != nn);
                    assert(es_old[w].0@ == k);
                }
                if entries_contain(es_old, k) {
                    let w = choose|w: int| 0 <= w < es_old.len() && es_old[w].0@ == k;
                    assert(es_new[w].0@ == k);
                }
            }
            assert forall|k: Seq<u8>|
                k != key@ && entries_contain(es_new, k) implies entries_value(es_new, k)
                == entries_value(es_old, k) by {
                let w = choose|w: int| 0 <= w < es_new.len() && es_new[w].0@ == k;
                assert(w != nn);
                lemma_entry_value(es_new, k, w);
                lemma_entry_value(es_old, k, w);
            }
            assert(self@ =~= old(self)@.insert(key@, value@));
        }
    }
}

} // verus!
