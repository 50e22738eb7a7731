//! Ledger snapshots: textual pictures of the ledger's state, kept in the
//! order in which they were taken.

use vstd::prelude::*;

verus! {

/// A run of snapshots, each taken as its text.
pub open spec fn texts(snapshots: Seq<String>) -> Seq<Seq<char>> {
    snapshots.map_values(|s: String| s@)
}

/// Stores arbitrary textual representations of ledger state.
pub struct LedgerSnapshotter {
    snapshots: Vec<String>,
}

impl View for LedgerSnapshotter {
    type V = Seq<Seq<char>>;

    /// The snapshots held, oldest first.
    closed spec fn view(&self) -> Seq<Seq<char>> {
        texts(self.snapshots@)
    }
}

impl LedgerSnapshotter {
    /// Creates a snapshotter that holds nothing.
    pub fn new() -> (r: Self)
        ensures
            r@ == Seq::<Seq<char>>::empty(),
    {
        LedgerSnapshotter { snapshots: Vec::new() }
    }

    /// Stores a new snapshot after those already held.
    pub fn take_snapshot(&mut self, data: &str)
        ensures
            final(self)@ == old(self)@.push(data@),
    {
        self.snapshots.push(data.to_owned());
    }

    /// Returns the snapshot taken last, or `None` where none was taken.
    pub fn latest(&self) -> (r: Option<&str>)
        ensures
            r.is_some() <==> self@.len() > 0,
            r matches Some(text) ==> text@ == self@.last(),
    {
        let held = self.snapshots.len();
        if held == 0 {
            None
        } else {
            Some(self.snapshots[held - 1].as_str())
        }
    }

    /// Returns the number of snapshots held.
    pub fn count(&self) -> (n: usize)
        ensures
            n == self@.len(),
    {
        self.snapshots.len()
    }
}

} // verus!
