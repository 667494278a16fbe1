//! Positions in the chain.

use vstd::prelude::*;
use crate::policy::WorkerError;

verus! {

/// Digest that identifies a block: always 32 bytes.
pub type BlockHash = [u8; 32];

/// A position in the chain: the genesis, or a slot together with the hash of
/// the block found there.
#[derive(Clone, Copy, Debug, PartialEq, Eq)]
pub enum Point {
    Origin,
    Specific(u64, BlockHash),
}

impl Point {
    /// The slot of a position; the genesis counts as slot 0.
    pub open spec fn spec_slot_or_default(&self) -> u64 {
        match *self {
            Point::Origin => 0,
            Point::Specific(slot, _) => slot,
        }
    }

    /// A position at `slot`, on the block with digest `hash`.
    pub fn new(slot: u64, hash: BlockHash) -> (point: Point)
        ensures
            point == Point::Specific(slot, hash),
    {
        Point::Specific(slot, hash)
    }

    /// The position that the peer names by `slot` and the bytes `hash`. A
    /// digest of any other length than 32 bytes is malformed data: that is
    /// unrecoverable.
    pub fn from_wire(slot: u64, hash: &[u8]) -> (out: Result<Point, WorkerError>)
        ensures
            hash@.len() == 32 ==> (out matches Ok(Point::Specific(at, digest)) && at == slot
                && digest@ == hash@),
            hash@.len() != 32 ==> out == Err::<Point, WorkerError>(WorkerError::Panic),
    {
        if hash.len() != 32 {
            return Err(WorkerError::Panic);
        }
        let mut digest: BlockHash = [0u8; 32];
        let mut i: usize = 0;
        while i < 32
            invariant
                i <= 32,
                hash@.len() == 32,
                forall|j: int| 0 <= j < i ==> digest@[j] == hash@[j],
            decreases 32 - i,
        {
            digest[i] = hash[i];
            i += 1;
        }
        assert(digest@ =~= hash@);
        Ok(Point::Specific(slot, digest))
    }

    /// The slot of this position, 0 for the genesis.
    #[verifier::when_used_as_spec(spec_slot_or_default)]
    pub fn slot_or_default(&self) -> (slot: u64)
        ensures
            slot == self.spec_slot_or_default(),
    {
        match self {
            Point::Origin => 0,
            Point::Specific(slot, _) => *slot,
        }
    }
}

} // verus!
