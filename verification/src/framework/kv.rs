//! The record that is reported with each iteration.
use vstd::prelude::*;

verus! {

/// A value in a [`KV`] record.
#[derive(Debug)]
pub enum KvValue {
    /// A signed number.
    Int(i64),
    /// A count.
    Uint(u64),
    /// A flag.
    Bool(bool),
    /// Anything else, as it is to be shown.
    Str(String),
}

/// A record of named values in the order in which they were added. A name may occur
/// more than once.
pub struct KV {
    /// The pairs of name and value, the first added first.
    pub kv: Vec<(&'static str, KvValue)>,
}

impl KV {
    /// An empty record.
    pub fn new() -> (r: KV)
        ensures
            r.kv@ == Seq::<(&'static str, KvValue)>::empty(),
    {
        KV { kv: Vec::new() }
    }

    /// Adds a pair at the end of the record.
    pub fn push(&mut self, key: &'static str, val: KvValue)
        ensures
            final(self).kv@ == old(self).kv@.push((key, val)),
    {
        self.kv.push((key, val));
    }

    /// The record followed by the pairs of `other`, each record in its own order.
    pub fn merge(self, other: KV) -> (r: KV)
        ensures
            r.kv@ == self.kv@ + other.kv@,
    {
        let mut merged = self;
        let mut rest = other;
        merged.kv.append(&mut rest.kv);
        merged
    }

    /// The number of pairs in the record.
    pub fn len(&self) -> (n: usize)
        ensures
            n == self.kv@.len(),
    {
        self.kv.len()
    }
}

impl Default for KV {
    fn default() -> (r: KV)
        ensures
            r.kv@ == Seq::<(&'static str, KvValue)>::empty(),
    {
        KV::new()
    }
}

} // verus!
