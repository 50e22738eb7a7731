//! An in-memory oracle: the latest value reported under each key.

use vstd::prelude::*;
use vstd::hash_map::StringHashMap;

verus! {

/// Keeps the most recent value of each key.
pub struct OracleUpdater {
    values: StringHashMap<i64>,
}

impl View for OracleUpdater {
    type V = Map<Seq<char>, i64>;

    /// The value that stands under each key.
    closed spec fn view(&self) -> Map<Seq<char>, i64> {
        self.values@
    }
}

impl OracleUpdater {
    /// Creates an oracle without values.
    pub fn new() -> (r: Self)
        ensures
            r@ == Map::<Seq<char>, i64>::empty(),
    {
        OracleUpdater { values: StringHashMap::new() }
    }

    /// Stores `value` under `key`, in place of any earlier value.
    pub fn update(&mut self, key: &str, value: i64)
        ensures
            final(self)@ == old(self)@.insert(key@, value),
    {
        self.values.insert(key.to_owned(), value);
    }

    /// Fetches the most recent value for `key`, or `None` where none was
    /// ever stored.
    pub fn get(&self, key: &str) -> (r: Option<i64>)
        ensures
            r.is_some() <==> self@.contains_key(key@),
            r matches Some(value) ==> value == self@[key@],
    {
        match self.values.get(key) {
            Some(value) => Some(*value),
            None => None,
        }
    }
}

impl Default for OracleUpdater {
    fn default() -> (r: Self)
        ensures
            r@ == Map::<Seq<char>, i64>::empty(),
    {
        OracleUpdater::new()
    }
}

} // verus!
