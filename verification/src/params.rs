//! The per-invocation parameter bag: string keys to string values.
//! Unrecognized keys are simply never looked up; absent keys fall back to
//! the caller's documented default.

use vstd::prelude::*;
use crate::text::str_eq;

verus! {

/// The value bound to the first pair carrying the key, if any.
pub open spec fn spec_lookup(pairs: Seq<(String, String)>, key: Seq<char>) -> Option<Seq<char>>
    decreases pairs.len(),
{
    if pairs.len() == 0 {
        None
    } else if pairs[0].0@ == key {
        Some(pairs[0].1@)
    } else {
        spec_lookup(pairs.drop_first(), key)
    }
}

/// An unordered key-to-value bag supplied by the caller per invocation.
pub struct ParamBag {
    pub pairs: Vec<(String, String)>,
}

impl ParamBag {
    /// An empty bag.
    pub fn new() -> (r: ParamBag)
        ensures
            r.pairs@.len() == 0,
    {
        ParamBag { pairs: Vec::new() }
    }

    /// Adds one key-value pair.
    pub fn put(&mut self, key: String, value: String)
        ensures
            final(self).pairs@ == old(self).pairs@.push((key, value)),
    {
        self.pairs.push((key, value));
    }

    /// The value bound to the key, if any.
    pub fn get(&self, key: &str) -> (r: Option<String>)
        ensures
            match spec_lookup(self.pairs@, key@) {
                Some(v) => r matches Some(s) && s@ == v,
                None => r is None,
            },
    {
        let mut i: usize = 0;
        proof {
            assert(self.pairs@.skip(0) =~= self.pairs@);
        }
        while i < self.pairs.len()
            invariant
                i <= self.pairs@.len(),
                spec_lookup(self.pairs@, key@) == spec_lookup(self.pairs@.skip(i as int), key@),
            decreases self.pairs@.len() - i,
        {
            proof {
                assert(self.pairs@.skip(i as int)[0] == self.pairs@[i as int]);
            }
            if str_eq(self.pairs[i].0.as_str(), key) {
                let v = self.pairs[i].1.clone();
                return Some(v);
            }
            proof {
                assert(self.pairs@.skip(i as int).drop_first() =~= self.pairs@.skip(i + 1));
            }
            i += 1;
        }
        proof {
            assert(self.pairs@.skip(i as int).len() == 0);
        }
        None
    }
}

} // verus!
