//! The header map: named header lines in insertion order with unique
//! keys.  It offers the two update policies the engine needs and keeps
//! them distinct: `insert` lets the first occurrence of a key win (the
//! parser's duplicate-header rule), `set` overwrites in place (the
//! builders' rule for defaulted and injected headers).

use vstd::prelude::*;

verus! {

/// A header name/value pair at the spec level.
pub type HeaderPair = (Seq<char>, Seq<char>);

/// No key occurs twice.
pub open spec fn spec_keys_unique(hs: Seq<HeaderPair>) -> bool {
    forall|i: int, j: int| 0 <= i < j < hs.len() ==> hs[i].0 != hs[j].0
}

/// Whether some entry carries the key `k`.
pub open spec fn spec_headers_contain(hs: Seq<HeaderPair>, k: Seq<char>) -> bool {
    exists|i: int| 0 <= i < hs.len() && hs[i].0 == k
}

/// The value of the first entry carrying the key `k`, if any.
pub open spec fn spec_lookup(hs: Seq<HeaderPair>, k: Seq<char>) -> Option<Seq<char>>
    decreases hs.len(),
{
    if hs.len() == 0 {
        None
    } else if hs[0].0 == k {
        Some(hs[0].1)
    } else {
        spec_lookup(hs.drop_first(), k)
    }
}

pub proof fn lemma_lookup_contains(hs: Seq<HeaderPair>, k: Seq<char>)
    ensures
        spec_lookup(hs, k) is Some <==> spec_headers_contain(hs, k),
    decreases hs.len(),
{
    if hs.len() > 0 && hs[0].0 != k {
        lemma_lookup_contains(hs.drop_first(), k);
        if spec_headers_contain(hs.drop_first(), k) {
            let i = choose|i: int| 0 <= i < hs.drop_first().len() && hs.drop_first()[i].0 == k;
            assert(hs[i + 1].0 == k);
        }
        if spec_headers_contain(hs, k) {
            let i = choose|i: int| 0 <= i < hs.len() && hs[i].0 == k;
            assert(hs.drop_first()[i - 1].0 == k);
        }
    }
}

/// The first entry carrying key `k` replaced by `(k, v)`; appended when
/// no entry carries `k`.
pub open spec fn spec_set_first(hs: Seq<HeaderPair>, k: Seq<char>, v: Seq<char>) -> Seq<HeaderPair>
    decreases hs.len(),
{
    if hs.len() == 0 {
        seq![(k, v)]
    } else if hs[0].0 == k {
        seq![(k, v)] + hs.drop_first()
    } else {
        seq![hs[0]] + spec_set_first(hs.drop_first(), k, v)
    }
}

/// Header lines in insertion order, each key at most once.
#[derive(Debug)]
pub struct HeaderMap {
    entries: Vec<(String, String)>,
}

impl View for HeaderMap {
    type V = Seq<HeaderPair>;

    closed spec fn view(&self) -> Seq<HeaderPair> {
        self.entries.deep_view()
    }
}

impl HeaderMap {
    /// The key-uniqueness invariant every `HeaderMap` satisfies.
    pub open spec fn wf(&self) -> bool {
        spec_keys_unique(self@)
    }

    pub fn new() -> (m: HeaderMap)
        ensures
            m@ == Seq::<HeaderPair>::empty(),
            m.wf(),
    {
        let m = HeaderMap { entries: Vec::new() };
        proof {
            assert(m@ =~= Seq::<HeaderPair>::empty());
        }
        m
    }

    pub fn len(&self) -> (n: usize)
        ensures
            n == self@.len(),
    {
        self.entries.len()
    }

    /// The name and value of the entry at position `i`.
    pub fn entry_at(&self, i: usize) -> (e: (&String, &String))
        requires
            i < self@.len(),
        ensures
            e.0@ == self@[i as int].0,
            e.1@ == self@[i as int].1,
    {
        let pair = &self.entries[i];
        (&pair.0, &pair.1)
    }

    fn index_of(&self, k: &str) -> (r: Option<usize>)
        ensures
            match r {
                Some(i) => i < self@.len() && self@[i as int].0 == k@,
                None => !spec_headers_contain(self@, k@),
            },
    {
        let n = self.entries.len();
        let mut i: usize = 0;
        while i < n
            invariant
                0 <= i <= n,
                n == self@.len(),
                forall|j: int| 0 <= j < i ==> self@[j].0 != k@,
            decreases n - i,
        {
            if crate::text::str_eq(self.entries[i].0.as_str(), k) {
                return Some(i);
            }
            i = i + 1;
        }
        None
    }

    pub fn contains_key(&self, k: &str) -> (r: bool)
        ensures
            r == spec_headers_contain(self@, k@),
    {
        self.index_of(k).is_some()
    }

    /// The value stored under `k`, if any.
    pub fn get(&self, k: &str) -> (r: Option<&String>)
        requires
            self.wf(),
        ensures
            match r {
                Some(v) => spec_lookup(self@, k@) == Some(v@),
                None => spec_lookup(self@, k@) is None,
            },
    {
        proof {
            lemma_lookup_contains(self@, k@);
        }
        match self.index_of(k) {
            Some(i) => {
                proof {
                    lemma_lookup_at(self@, k@, i as int);
                }
                Some(&self.entries[i].1)
            },
            None => None,
        }
    }

    /// First occurrence wins: a key already present keeps its value, and
    /// the map is unchanged.
    pub fn insert(&mut self, k: String, v: String)
        requires
            old(self).wf(),
        ensures
            final(self).wf(),
            spec_headers_contain(old(self)@, k@) ==> final(self)@ == old(self)@,
            !spec_headers_contain(old(self)@, k@) ==> final(self)@ == old(self)@.push((k@, v@)),
    {
        if !self.contains_key(k.as_str()) {
            let ghost old_view = self@;
            self.entries.push((k, v));
            proof {
                assert(self@ =~= old_view.push((k@, v@)));
            }
        }
    }

    /// Last write wins: a key already present has its value overwritten
    /// in place; otherwise the entry is appended.
    pub fn set(&mut self, k: String, v: String)
        requires
            old(self).wf(),
        ensures
            final(self).wf(),
            final(self)@ == spec_set_first(old(self)@, k@, v@),
    {
        let ghost old_view = self@;
        match self.index_of(k.as_str()) {
            Some(i) => {
                self.entries.set(i, (k, v));
                proof {
                    assert(self@ =~= old_view.update(i as int, (k@, v@)));
                    lemma_set_first_at(old_view, k@, v@, i as int);
                }
            },
            None => {
                self.entries.push((k, v));
                proof {
                    assert(self@ =~= old_view.push((k@, v@)));
                    lemma_set_first_absent(old_view, k@, v@);
                }
            },
        }
        proof {
            lemma_set_first_wf(old_view, k@, v@);
        }
    }
}

/// Appending an entry never disturbs the value of a key that already
/// has one: lookups find the first occurrence.
pub proof fn lemma_lookup_push(hs: Seq<HeaderPair>, p: HeaderPair, k: Seq<char>)
    requires
        spec_lookup(hs, k) is Some,
    ensures
        spec_lookup(hs.push(p), k) == spec_lookup(hs, k),
    decreases hs.len(),
{
    if hs.len() > 0 && hs[0].0 != k {
        assert(hs.push(p).drop_first() =~= hs.drop_first().push(p));
        lemma_lookup_push(hs.drop_first(), p, k);
    } else {
        assert(hs.push(p)[0] == hs[0]);
    }
}

proof fn lemma_lookup_at(hs: Seq<HeaderPair>, k: Seq<char>, i: int)
    requires
        spec_keys_unique(hs),
        0 <= i < hs.len(),
        hs[i].0 == k,
    ensures
        spec_lookup(hs, k) == Some(hs[i].1),
    decreases hs.len(),
{
    if i > 0 {
        assert(hs[0].0 != k);
        lemma_lookup_at(hs.drop_first(), k, i - 1);
    }
}

proof fn lemma_set_first_at(hs: Seq<HeaderPair>, k: Seq<char>, v: Seq<char>, i: int)
    requires
        spec_keys_unique(hs),
        0 <= i < hs.len(),
        hs[i].0 == k,
    ensures
        spec_set_first(hs, k, v) == hs.update(i, (k, v)),
    decreases hs.len(),
{
    if i == 0 {
        assert(seq![(k, v)] + hs.drop_first() =~= hs.update(0, (k, v)));
    } else {
        assert(hs[0].0 != k);
        lemma_set_first_at(hs.drop_first(), k, v, i - 1);
        assert(seq![hs[0]] + hs.drop_first().update(i - 1, (k, v)) =~= hs.update(i, (k, v)));
    }
}

proof fn lemma_set_first_absent(hs: Seq<HeaderPair>, k: Seq<char>, v: Seq<char>)
    requires
        !spec_headers_contain(hs, k),
    ensures
        spec_set_first(hs, k, v) == hs.push((k, v)),
    decreases hs.len(),
{
    if hs.len() == 0 {
        assert(seq![(k, v)] =~= hs.push((k, v)));
    } else {
        assert(hs[0].0 != k);
        assert(!spec_headers_contain(hs.drop_first(), k)) by {
            if spec_headers_contain(hs.drop_first(), k) {
                let i = choose|i: int|
                    0 <= i < hs.drop_first().len() && hs.drop_first()[i].0 == k;
                assert(hs[i + 1].0 == k);
            }
        }
        lemma_set_first_absent(hs.drop_first(), k, v);
        assert(seq![hs[0]] + hs.drop_first().push((k, v)) =~= hs.push((k, v)));
    }
}

proof fn lemma_set_first_wf(hs: Seq<HeaderPair>, k: Seq<char>, v: Seq<char>)
    requires
        spec_keys_unique(hs),
    ensures
        spec_keys_unique(spec_set_first(hs, k, v)),
{
    lemma_lookup_contains(hs, k);
    if spec_headers_contain(hs, k) {
        let i = choose|i: int| 0 <= i < hs.len() && hs[i].0 == k;
        lemma_set_first_at(hs, k, v, i);
    } else {
        lemma_set_first_absent(hs, k, v);
    }
}

} // verus!
