//! A small association map from string keys to values.
//!
//! Connection state (startup parameters, prepared statements, portals) and
//! the variable maps are all keyed by client-supplied strings. The map is a
//! vector of entries with the newest binding first, so inserting an existing
//! key shadows the old binding, which gives the overwrite semantics the
//! protocol asks for.
use vstd::prelude::*;

verus! {

/// First-match lookup over the entry sequence.
pub open spec fn assoc_get<V>(s: Seq<(String, V)>, k: Seq<char>) -> Option<V>
    decreases s.len(),
{
    if s.len() == 0 {
        None
    } else if s[0].0@ == k {
        Some(s[0].1)
    } else {
        assoc_get(s.drop_first(), k)
    }
}

pub struct StrMap<V> {
    pub entries: Vec<(String, V)>,
}

impl<V> StrMap<V> {
    pub open spec fn spec_get(self, k: Seq<char>) -> Option<V> {
        assoc_get(self.entries@, k)
    }

    pub open spec fn spec_contains(self, k: Seq<char>) -> bool {
        self.spec_get(k) is Some
    }

    pub fn new() -> (m: Self)
        ensures
            forall|k: Seq<char>| #![trigger m.spec_get(k)] m.spec_get(k) is None,
    {
        StrMap { entries: Vec::new() }
    }

    pub fn get<'a>(&'a self, k: &String) -> (r: Option<&'a V>)
        ensures
            match r {
                Some(v) => self.spec_get(k@) == Some(*v),
                None => self.spec_get(k@) is None,
            },
    {
        let n = self.entries.len();
        proof {
            assert(self.entries@.skip(0) =~= self.entries@);
        }
        for i in 0..n
            invariant
                n == self.entries@.len(),
                assoc_get(self.entries@.skip(i as int), k@) == self.spec_get(k@),
        {
            let e = &self.entries[i];
            proof {
                assert(self.entries@.skip(i as int)[0] == self.entries@[i as int]);
                assert(self.entries@.skip(i as int).drop_first() =~= self.entries@.skip(
                    i as int + 1,
                ));
            }
            if e.0 == *k {
                return Some(&e.1);
            }
        }
        proof {
            assert(self.entries@.skip(n as int) =~= Seq::<(String, V)>::empty());
        }
        None
    }

    pub fn contains_key(&self, k: &String) -> (r: bool)
        ensures
            r == self.spec_contains(k@),
    {
        self.get(k).is_some()
    }

    pub fn insert(&mut self, k: String, v: V)
        ensures
            final(self).spec_get(k@) == Some(v),
            forall|k2: Seq<char>|
                #![trigger final(self).spec_get(k2)]
                #![trigger old(self).spec_get(k2)]
                k2 != k@ ==> final(self).spec_get(k2) == old(self).spec_get(k2),
    {
        self.entries.insert(0, (k, v));
        proof {
            assert(self.entries@[0].0@ == k@);
            assert(self.entries@.drop_first() =~= old(self).entries@);
        }
    }
}

} // verus!
