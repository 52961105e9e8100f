//! Metadata gathered from an upload form: one value per key, keys kept in
//! the order in which they first appeared.

use vstd::prelude::*;

verus! {

pub type Entries = Seq<(Seq<char>, Seq<char>)>;

pub open spec fn has_key(m: Entries, k: Seq<char>) -> bool {
    exists|i: int| 0 <= i < m.len() && m[i].0 == k
}

/// `m` with `k` set to `v`: an existing entry is overwritten in place, a new
/// key goes last.
pub open spec fn upserted(m: Entries, k: Seq<char>, v: Seq<char>) -> Entries {
    if has_key(m, k) {
        let i = choose|i: int| 0 <= i < m.len() && m[i].0 == k;
        m.update(i, (k, v))
    } else {
        m.push((k, v))
    }
}

pub open spec fn keys_unique(m: Entries) -> bool {
    forall|i: int, j: int| 0 <= i < j < m.len() ==> m[i].0 != m[j].0
}

pub open spec fn keys_of(m: Entries) -> Seq<Seq<char>> {
    m.map_values(|e: (Seq<char>, Seq<char>)| e.0)
}

/// Keys joined by commas.
pub open spec fn joined(keys: Seq<Seq<char>>) -> Seq<char>
    decreases keys.len(),
{
    if keys.len() == 0 {
        Seq::empty()
    } else if keys.len() == 1 {
        keys[0]
    } else {
        joined(keys.drop_last()) + ","@ + keys.last()
    }
}

#[derive(Debug, Clone)]
pub struct MetadataMap {
    pub entries: Vec<(String, String)>,
}

impl View for MetadataMap {
    type V = Entries;

    open spec fn view(&self) -> Entries {
        self.entries@.map_values(|e: (String, String)| (e.0@, e.1@))
    }
}

impl MetadataMap {
    pub open spec fn wf(&self) -> bool {
        keys_unique(self@)
    }

    pub fn new() -> (r: MetadataMap)
        ensures
            r.wf(),
            r@.len() == 0,
    {
        MetadataMap { entries: Vec::new() }
    }

    pub fn len(&self) -> (r: usize)
        ensures
            r == self@.len(),
    {
        self.entries.len()
    }

    /// Sets `key` to `value`.
    pub fn insert(&mut self, key: String, value: String)
        requires
            old(self).wf(),
        ensures
            final(self).wf(),
            final(self)@ == upserted(old(self)@, key@, value@),
    {
        let mut i: usize = 0;
        while i < self.entries.len()
            invariant
                self == old(self),
                old(self).wf(),
                i <= self@.len(),
                forall|j: int| 0 <= j < i ==> self@[j].0 != key@,
            decreases self@.len() - i,
        {
            if self.entries[i].0 == key {
                proof {
                    let m = old(self)@;
                    assert(m[i as int].0 == key@);
                    assert(has_key(m, key@));
                    let c = choose|c: int| 0 <= c < m.len() && m[c].0 == key@;
                    assert(c == i) by {
                        if c < i {
                        } else if c > i {
                            assert(keys_unique(m));
                            assert(0 <= i < c < m.len());
                            assert(m[i as int].0 != m[c].0);
                        }
                    }
                    assert forall|j: int| 0 <= j < m.len() && j != i implies m[j].0 != key@ by {
                        assert(keys_unique(m));
                        if j < i {
                            assert(m[j].0 != m[i as int].0);
                        } else {
                            assert(m[i as int].0 != m[j].0);
                        }
                    }
                }
                let ghost kv = (key@, value@);
                self.entries.set(i, (key, value));
                assert(self@ =~= old(self)@.update(i as int, kv));
                return;
            }
            i += 1;
        }
        let ghost kv = (key@, value@);
        self.entries.push((key, value));
        assert(self@ =~= old(self)@.push(kv));
        assert(!has_key(old(self)@, kv.0));
    }

    /// The keys, joined by commas.
    pub fn joined_keys(&self) -> (r: String)
        ensures
            r@ == joined(keys_of(self@)),
    {
        let mut r = String::new();
        let mut i: usize = 0;
        while i < self.entries.len()
            invariant
                i <= self@.len(),
                r@ == joined(keys_of(self@.subrange(0, i as int))),
            decreases self@.len() - i,
        {
            let ghost prev = keys_of(self@.subrange(0, i as int));
            assert(keys_of(self@.subrange(0, i + 1)) =~= prev.push(self@[i as int].0));
            if i > 0 {
                r.append(",");
            }
            r.append(self.entries[i].0.as_str());
            proof {
                if i == 0 {
                    assert(r@ =~= keys_of(self@.subrange(0, 1))[0]);
                } else {
                    assert(prev.push(self@[i as int].0).drop_last() =~= prev);
                }
            }
            i += 1;
        }
        assert(self@.subrange(0, self@.len() as int) =~= self@);
        r
    }
}

} // verus!
