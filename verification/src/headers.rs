//! The header map of a request or response: name/value pairs of bytes,
//! with unique names, insertion order kept, and last-write-wins
//! replacement on a repeated name.

use vstd::prelude::*;

use crate::bytes::copy_bytes;

verus! {

/// Entries as they stand in the map, in order.
pub type HeaderSeq = Seq<(Seq<u8>, Seq<u8>)>;

/// Names are unique.
pub open spec fn wf_headers(m: HeaderSeq) -> bool {
    forall|i: int, j: int| 0 <= i < j < m.len() ==> (#[trigger] m[i]).0 != (#[trigger] m[j]).0
}

pub open spec fn has_name(m: HeaderSeq, k: Seq<u8>) -> bool {
    exists|i: int| 0 <= i < m.len() && (#[trigger] m[i]).0 == k
}

/// The position of name `k`; meaningful only when `has_name` holds,
/// and then unique under `wf_headers`.
pub open spec fn name_index(m: HeaderSeq, k: Seq<u8>) -> int {
    choose|i: int| 0 <= i < m.len() && (#[trigger] m[i]).0 == k
}

/// The value stored under `k`, if any.
pub open spec fn spec_lookup(m: HeaderSeq, k: Seq<u8>) -> Option<Seq<u8>> {
    if has_name(m, k) {
        Some(m[name_index(m, k)].1)
    } else {
        None
    }
}

/// Last-write-wins insertion: replace in place, or append a new entry.
pub open spec fn spec_insert(m: HeaderSeq, k: Seq<u8>, v: Seq<u8>) -> HeaderSeq {
    if has_name(m, k) {
        m.update(name_index(m, k), (k, v))
    } else {
        m.push((k, v))
    }
}

pub struct Headers {
    entries: Vec<(Vec<u8>, Vec<u8>)>,
}

impl View for Headers {
    type V = HeaderSeq;

    closed spec fn view(&self) -> HeaderSeq {
        Seq::new(self.entries@.len(), |i: int| (self.entries@[i].0@, self.entries@[i].1@))
    }
}

impl Headers {
    pub open spec fn wf(&self) -> bool {
        wf_headers(self@)
    }

    pub fn new() -> (r: Headers)
        ensures
            r@ == Seq::<(Seq<u8>, Seq<u8>)>::empty(),
            r.wf(),
    {
        let r = Headers { entries: Vec::new() };
        proof {
            assert(r@ =~= Seq::<(Seq<u8>, Seq<u8>)>::empty());
        }
        r
    }

    pub fn len(&self) -> (r: usize)
        ensures
            r == self@.len(),
    {
        self.entries.len()
    }

    /// The entry at a position, as fresh byte vectors.
    pub fn entry_at(&self, i: usize) -> (r: (Vec<u8>, Vec<u8>))
        requires
            i < self@.len(),
        ensures
            r.0@ == self@[i as int].0,
            r.1@ == self@[i as int].1,
    {
        let name = copy_bytes(&self.entries[i].0);
        let value = copy_bytes(&self.entries[i].1);
        (name, value)
    }

    fn find_name(&self, k: &Vec<u8>) -> (r: Option<usize>)
        requires
            self.wf(),
        ensures
            match r {
                Some(i) => i < self@.len() && self@[i as int].0 == k@ && has_name(self@, k@)
                    && name_index(self@, k@) == i,
                None => !has_name(self@, k@),
            },
    {
        let mut i: usize = 0;
        while i < self.entries.len()
            invariant
                self.wf(),
                i <= self@.len(),
                self@.len() == self.entries@.len(),
                forall|j: int| 0 <= j < i ==> (#[trigger] self@[j]).0 != k@,
            decreases self@.len() - i,
        {
            if crate::bytes::bytes_eq(&self.entries[i].0, k) {
                proof {
                    assert(self@[i as int].0 == k@);
                    let w = name_index(self@, k@);
                    assert(0 <= w < self@.len() && self@[w].0 == k@);
                    assert(w == i);
                }
                return Some(i);
            }
            i += 1;
        }
        proof {
            if has_name(self@, k@) {
                let w = name_index(self@, k@);
                assert(self@[w].0 == k@);
            }
        }
        None
    }

    pub fn get(&self, k: &Vec<u8>) -> (r: Option<Vec<u8>>)
        requires
            self.wf(),
        ensures
            match r {
                Some(v) => spec_lookup(self@, k@) == Some(v@),
                None => spec_lookup(self@, k@) is None,
            },
    {
        match self.find_name(k) {
            Some(i) => Some(copy_bytes(&self.entries[i].1)),
            None => None,
        }
    }

    pub fn contains(&self, k: &Vec<u8>) -> (r: bool)
        requires
            self.wf(),
        ensures
            r == has_name(self@, k@),
    {
        self.find_name(k).is_some()
    }

    pub fn insert(&mut self, k: Vec<u8>, v: Vec<u8>)
        requires
            old(self).wf(),
        ensures
            final(self)@ == spec_insert(old(self)@, k@, v@),
            final(self).wf(),
            !has_name(old(self)@, k@) ==> final(self)@ == old(self)@.push((k@, v@)),
    {
        let idx = self.find_name(&k);
        match idx {
            Some(i) => {
                self.entries.set(i, (k, v));
                proof {
                    assert(self@ =~= spec_insert(old(self)@, k@, v@));
                    assert forall|a: int, b: int|
                        0 <= a < b < self@.len() implies (#[trigger] self@[a]).0 != (
                    #[trigger] self@[b]).0 by {
                        assert(old(self)@[name_index(old(self)@, k@)].0 == k@);
                    }
                }
            },
            None => {
                self.entries.push((k, v));
                proof {
                    assert(self@ =~= old(self)@.push((k@, v@)));
                    assert forall|a: int, b: int|
                        0 <= a < b < self@.len() implies (#[trigger] self@[a]).0 != (
                    #[trigger] self@[b]).0 by {}
                }
            },
        }
    }
}

/// Under unique names, any entry whose name matches is the looked-up
/// entry.
pub proof fn lemma_lookup_at(m: HeaderSeq, i: int)
    requires
        wf_headers(m),
        0 <= i < m.len(),
    ensures
        spec_lookup(m, m[i].0) == Some(m[i].1),
{
    let k = m[i].0;
    assert(has_name(m, k));
    let w = name_index(m, k);
    assert(0 <= w < m.len() && m[w].0 == k);
    assert(w == i);
}

} // verus!
