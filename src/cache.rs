//! The keyed store of resolved configuration and plugin metadata.
use std::collections::HashMap;
use vstd::prelude::*;

verus! {

/// Resolved data keyed by a content fingerprint.
pub struct Cache {
    entries: HashMap<u64, String>,
}

impl View for Cache {
    type V = Map<u64, String>;

    closed spec fn view(&self) -> Map<u64, String> {
        self.entries@
    }
}

impl Cache {
    /// An empty cache.
    pub fn new() -> (r: Cache)
        ensures
            r@ == Map::<u64, String>::empty(),
    {
        Cache { entries: HashMap::new() }
    }

    /// Stores `value` under `key`, replacing what was there.
    pub fn insert(&mut self, key: u64, value: String)
        ensures
            final(self)@ == old(self)@.insert(key, value),
    {
        self.entries.insert(key, value);
    }

    /// The value stored under `key`, if any.
    pub fn get(&self, key: u64) -> (r: Option<&String>)
        ensures
            r is Some <==> self@.contains_key(key),
            r matches Some(v) ==> *v == self@[key],
    {
        self.entries.get(&key)
    }

    /// Whether nothing is stored.
    pub fn is_empty(&self) -> (r: bool)
        ensures
            r <==> self@ == Map::<u64, String>::empty(),
    {
        let r = self.entries.is_empty();
        proof {
            if r {
                assert(self@ =~= Map::<u64, String>::empty());
            }
        }
        r
    }

    /// The number of keys stored.
    pub fn len(&self) -> (r: usize)
        ensures
            r == self@.len(),
    {
        self.entries.len()
    }

    /// Removes every entry.
    pub fn clear(&mut self)
        ensures
            final(self)@ == Map::<u64, String>::empty(),
    {
        self.entries.clear();
    }
}

} // verus!
