//! An ordered header map: names keep the case they were written with,
//! reads ignore case, and a later write of the same name replaces
//! the earlier one in place.
use vstd::prelude::*;

use crate::text::{eq_ignore_case, same_name};

verus! {

/// A header list in its abstract form: (name, value) pairs in order.
pub type HeaderSeq = Seq<(Seq<char>, Seq<char>)>;

/// No two entries carry the same name ignoring case.
pub open spec fn distinct_names(h: HeaderSeq) -> bool {
    forall|i: int, j: int|
        0 <= i < h.len() && 0 <= j < h.len() && i != j ==> !same_name(#[trigger] h[i].0, #[trigger] h[j].0)
}

/// Some entry of `h` carries `name`.
pub open spec fn has_name(h: HeaderSeq, name: Seq<char>) -> bool {
    exists|i: int| 0 <= i < h.len() && same_name(#[trigger] h[i].0, name)
}

/// The index of the entry that carries `name`, where there is one.
pub open spec fn name_index(h: HeaderSeq, name: Seq<char>) -> int {
    choose|i: int| 0 <= i < h.len() && same_name(#[trigger] h[i].0, name)
}

/// The value stored under `name`, compared case-insensitively.
pub open spec fn lookup(h: HeaderSeq, name: Seq<char>) -> Option<Seq<char>> {
    if has_name(h, name) {
        Some(h[name_index(h, name)].1)
    } else {
        None
    }
}

/// `h` after writing `value` under `name`: the entry of that name is
/// replaced where it stands (taking the new spelling), or the pair is
/// appended.
pub open spec fn put(h: HeaderSeq, name: Seq<char>, value: Seq<char>) -> HeaderSeq {
    if has_name(h, name) {
        h.update(name_index(h, name), (name, value))
    } else {
        h.push((name, value))
    }
}

/// `h` after writing each pair of `pairs`, first to last.
pub open spec fn put_all(h: HeaderSeq, pairs: HeaderSeq) -> HeaderSeq
    decreases pairs.len(),
{
    if pairs.len() == 0 {
        h
    } else {
        let rest = put_all(h, pairs.drop_last());
        put(rest, pairs.last().0, pairs.last().1)
    }
}

/// The abstract form of a vector of string pairs.
pub open spec fn pairs_view(v: Seq<(String, String)>) -> HeaderSeq {
    v.map_values(|e: (String, String)| (e.0@, e.1@))
}

/// Where names are distinct, the entry found for a name is the one that
/// carries it.
pub proof fn lemma_lookup_at(h: HeaderSeq, name: Seq<char>, i: int)
    requires
        distinct_names(h),
        0 <= i < h.len(),
        same_name(h[i].0, name),
    ensures
        has_name(h, name),
        name_index(h, name) == i,
        lookup(h, name) == Some(h[i].1),
{
    assert(has_name(h, name));
    let j = name_index(h, name);
    if i != j {
        assert(same_name(h[i].0, h[j].0));
    }
}

/// Writing a header keeps names distinct, and afterwards a read of any
/// name that matches the written one ignoring case yields the written
/// value, while reads of other names are unchanged.
pub proof fn lemma_put(h: HeaderSeq, name: Seq<char>, value: Seq<char>)
    requires
        distinct_names(h),
    ensures
        distinct_names(put(h, name, value)),
        forall|n: Seq<char>|
            #[trigger] lookup(put(h, name, value), n) == if same_name(n, name) {
                Some(value)
            } else {
                lookup(h, n)
            },
{
    let r = put(h, name, value);
    if has_name(h, name) {
        let k = name_index(h, name);
        assert(distinct_names(r)) by {
            assert forall|i: int, j: int|
                0 <= i < r.len() && 0 <= j < r.len() && i != j implies !same_name(
                #[trigger] r[i].0,
                #[trigger] r[j].0,
            ) by {
                if i == k {
                    assert(!same_name(h[k].0, h[j].0));
                } else if j == k {
                    assert(!same_name(h[i].0, h[k].0));
                }
            }
        }
        assert forall|n: Seq<char>|
            #[trigger] lookup(r, n) == if same_name(n, name) {
                Some(value)
            } else {
                lookup(h, n)
            } by {
            if same_name(n, name) {
                lemma_lookup_at(r, n, k);
            } else if has_name(h, n) {
                let m = name_index(h, n);
                assert(m != k);
                lemma_lookup_at(r, n, m);
            } else {
                if has_name(r, n) {
                    let m = name_index(r, n);
                    assert(same_name(h[m].0, n));
                }
            }
        }
    } else {
        let k = h.len() as int;
        assert(distinct_names(r)) by {
            assert forall|i: int, j: int|
                0 <= i < r.len() && 0 <= j < r.len() && i != j implies !same_name(
                #[trigger] r[i].0,
                #[trigger] r[j].0,
            ) by {
                if i == k {
                    if same_name(r[i].0, r[j].0) {
                        assert(same_name(h[j].0, name));
                    }
                } else if j == k {
                    if same_name(r[i].0, r[j].0) {
                        assert(same_name(h[i].0, name));
                    }
                }
            }
        }
        assert forall|n: Seq<char>|
            #[trigger] lookup(r, n) == if same_name(n, name) {
                Some(value)
            } else {
                lookup(h, n)
            } by {
            if same_name(n, name) {
                lemma_lookup_at(r, n, k);
            } else if has_name(h, n) {
                let m = name_index(h, n);
                lemma_lookup_at(r, n, m);
            } else {
                if has_name(r, n) {
                    let m = name_index(r, n);
                    if m == k {
                        assert(same_name(n, name));
                    } else {
                        assert(same_name(h[m].0, n));
                    }
                }
            }
        }
    }
}

/// Header names and values, in the order they were first written.
#[derive(Debug)]
pub struct HeaderMap {
    entries: Vec<(String, String)>,
}

impl View for HeaderMap {
    type V = HeaderSeq;

    closed spec fn view(&self) -> HeaderSeq {
        pairs_view(self.entries@)
    }
}

impl HeaderMap {
    #[verifier::type_invariant]
    spec fn inv(self) -> bool {
        distinct_names(pairs_view(self.entries@))
    }

    /// An empty map.
    pub fn new() -> (r: HeaderMap)
        ensures
            r@ == Seq::<(Seq<char>, Seq<char>)>::empty(),
    {
        let r = HeaderMap { entries: Vec::new() };
        proof {
            assert(pairs_view(r.entries@) =~= Seq::<(Seq<char>, Seq<char>)>::empty());
        }
        r
    }

    /// The value stored under `name` in this map.
    pub open spec fn spec_get(&self, name: Seq<char>) -> Option<Seq<char>> {
        lookup(self@, name)
    }

    /// Number of distinct header names.
    pub fn len(&self) -> (r: usize)
        ensures
            r == self@.len(),
    {
        self.entries.len()
    }

    /// The stored pairs, in order.
    pub fn entries(&self) -> (r: &Vec<(String, String)>)
        ensures
            pairs_view(r@) == self@,
    {
        &self.entries
    }

    /// Reads a header, comparing names case-insensitively.
    pub fn get(&self, name: &str) -> (r: Option<&String>)
        ensures
            match r {
                Some(v) => self.spec_get(name@) == Some(v@),
                None => self.spec_get(name@) is None,
            },
    {
        proof {
            use_type_invariant(self);
        }
        let n = self.entries.len();
        let mut i: usize = 0;
        while i < n
            invariant
                n == self.entries@.len(),
                distinct_names(self@),
                i <= n,
                forall|j: int| 0 <= j < i ==> !same_name(#[trigger] self@[j].0, name@),
            decreases n - i,
        {
            if eq_ignore_case(self.entries[i].0.as_str(), name) {
                proof {
                    lemma_lookup_at(self@, name@, i as int);
                }
                return Some(&self.entries[i].1);
            }
            i = i + 1;
        }
        None
    }

    /// Writes a header: an entry whose name matches ignoring case is
    /// replaced in place, otherwise the pair is appended.
    pub fn insert(&mut self, name: &str, value: &str)
        ensures
            final(self)@ == put(old(self)@, name@, value@),
            forall|n: Seq<char>|
                #[trigger] final(self).spec_get(n) == if same_name(n, name@) {
                    Some(value@)
                } else {
                    old(self).spec_get(n)
                },
    {
        proof {
            use_type_invariant(&*self);
            lemma_put(self@, name@, value@);
        }
        let ghost h = self@;
        let mut entries: Vec<(String, String)> = Vec::new();
        std::mem::swap(&mut entries, &mut self.entries);
        let n = entries.len();
        let mut i: usize = 0;
        let mut found = false;
        while i < n
            invariant_except_break
                forall|j: int| 0 <= j < i ==> !same_name(#[trigger] h[j].0, name@),
                !found,
            invariant
                n == entries@.len(),
                h == pairs_view(entries@),
                distinct_names(h),
                i <= n,
            ensures
                found ==> i < n && same_name(h[i as int].0, name@),
                !found ==> forall|j: int| 0 <= j < n ==> !same_name(#[trigger] h[j].0, name@),
            decreases n - i,
        {
            if eq_ignore_case(entries[i].0.as_str(), name) {
                found = true;
                break;
            }
            i = i + 1;
        }
        if found {
            proof {
                lemma_lookup_at(h, name@, i as int);
            }
            entries.set(i, (String::from_str(name), String::from_str(value)));
        } else {
            entries.push((String::from_str(name), String::from_str(value)));
        }
        proof {
            assert(pairs_view(entries@) =~= put(h, name@, value@));
        }
        self.entries = entries;
    }

    /// Writes each pair in turn, as `insert` does.
    pub fn extend(&mut self, pairs: Vec<(String, String)>)
        ensures
            final(self)@ == put_all(old(self)@, pairs_view(pairs@)),
    {
        let n = pairs.len();
        let mut i: usize = 0;
        while i < n
            invariant
                n == pairs@.len(),
                i <= n,
                self@ == put_all(old(self)@, pairs_view(pairs@).subrange(0, i as int)),
            decreases n - i,
        {
            let ghost before = self@;
            self.insert(pairs[i].0.as_str(), pairs[i].1.as_str());
            proof {
                let p = pairs_view(pairs@);
                assert(p.subrange(0, i + 1).drop_last() =~= p.subrange(0, i as int));
            }
            i = i + 1;
        }
        proof {
            assert(pairs_view(pairs@).subrange(0, n as int) =~= pairs_view(pairs@));
        }
    }
}

impl Clone for HeaderMap {
    fn clone(&self) -> (r: Self)
        ensures
            r@ == self@,
    {
        proof {
            use_type_invariant(self);
        }
        let n = self.entries.len();
        let mut entries: Vec<(String, String)> = Vec::new();
        let mut i: usize = 0;
        while i < n
            invariant
                n == self.entries@.len(),
                i <= n,
                pairs_view(entries@) == self@.subrange(0, i as int),
            decreases n - i,
        {
            let name = String::from_str(self.entries[i].0.as_str());
            let value = String::from_str(self.entries[i].1.as_str());
            proof {
                assert(self@[i as int] == (name@, value@));
            }
            let ghost before = entries@;
            entries.push((name, value));
            proof {
                assert(pairs_view(entries@) =~= pairs_view(before).push(self@[i as int]));
                assert(pairs_view(entries@) =~= self@.subrange(0, i + 1));
            }
            i = i + 1;
        }
        proof {
            assert(self@.subrange(0, n as int) =~= self@);
        }
        HeaderMap { entries }
    }
}

} // verus!
