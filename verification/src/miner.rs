//! A miner that runs on a mobile device and counts the blocks it mined.

use vstd::prelude::*;

verus! {

/// Represents a miner operating from a mobile device.
pub struct MobileMiner {
    /// The hashes per second that the device delivers.
    pub hash_rate: u64,
    mined_blocks: u64,
}

/// What a miner is: its hash rate and the number of blocks it mined.
pub ghost struct MobileMinerView {
    pub hash_rate: u64,
    pub mined_blocks: u64,
}

impl View for MobileMiner {
    type V = MobileMinerView;

    closed spec fn view(&self) -> MobileMinerView {
        MobileMinerView { hash_rate: self.hash_rate, mined_blocks: self.mined_blocks }
    }
}

impl MobileMiner {
    /// Creates a new miner with the specified hash rate and no block mined.
    pub fn new(hash_rate: u64) -> (r: Self)
        ensures
            r@ == (MobileMinerView { hash_rate, mined_blocks: 0 }),
    {
        MobileMiner { hash_rate, mined_blocks: 0 }
    }

    /// Returns the hash rate of the device.
    pub fn hash_rate(&self) -> (r: u64)
        ensures
            r == self@.hash_rate,
    {
        self.hash_rate
    }

    /// Records the mining of a block.
    pub fn mine_block(&mut self)
        requires
            old(self)@.mined_blocks < u64::MAX,
        ensures
            final(self)@ == (MobileMinerView {
                mined_blocks: (old(self)@.mined_blocks + 1) as u64,
                ..old(self)@
            }),
    {
        self.mined_blocks = self.mined_blocks + 1;
    }

    /// Returns the total number of mined blocks.
    pub fn mined_blocks(&self) -> (n: u64)
        ensures
            n == self@.mined_blocks,
    {
        self.mined_blocks
    }
}

} // verus!
