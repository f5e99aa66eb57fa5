//! The feed of pool states: a run of slots of one size, one for each pool.

use vstd::prelude::*;

verus! {

/// Why a pool's state could not be placed in the feed.
#[derive(Clone, Copy, Debug, PartialEq, Eq, Structural)]
pub enum FeedError {
    /// There is no slot of this index.
    IndexOutOfBounds,
    /// The state takes more bytes than a slot has.
    TooLarge,
}

/// The layout of a feed: how many slots, and of what size.
#[derive(Clone, Copy, Debug, PartialEq, Eq, Structural)]
pub struct FeedLayout {
    pub pool_count: usize,
    pub slot_size: usize,
}

impl FeedLayout {
    /// The machine's word holds the size of the feed.
    pub open spec fn wf(self) -> bool {
        self.pool_count * self.slot_size <= usize::MAX
    }

    /// Number of bytes of the feed.
    pub open spec fn spec_size(self) -> nat {
        (self.pool_count * self.slot_size) as nat
    }

    /// The layout of a feed of `pool_count` slots of `slot_size` bytes.
    /// `None` where the machine's word does not hold the size of the feed.
    pub fn new(pool_count: usize, slot_size: usize) -> (r: Option<FeedLayout>)
        ensures
            r is Some <==> pool_count * slot_size <= usize::MAX,
            r matches Some(l) ==> l.wf() && l.pool_count == pool_count && l.slot_size
                == slot_size,
    {
        match pool_count.checked_mul(slot_size) {
            Some(_) => Some(FeedLayout { pool_count, slot_size }),
            None => None,
        }
    }

    /// Number of bytes of the feed.
    pub fn size(&self) -> (r: usize)
        requires
            self.wf(),
        ensures
            r == self.spec_size(),
    {
        self.pool_count * self.slot_size
    }

    /// Where the state of pool `index` goes in the feed, and the bytes that
    /// fill its slot: the state, then zeros.
    pub fn place(&self, index: usize, state: &[u8]) -> (r: Result<(usize, Vec<u8>), FeedError>)
        requires
            self.wf(),
        ensures
            r is Ok <==> index < self.pool_count && state@.len() <= self.slot_size,
            r matches Ok(p) ==> {
                &&& p.0 == index * self.slot_size
                &&& p.0 + self.slot_size <= self.spec_size()
                &&& p.1@.len() == self.slot_size
                &&& p.1@.subrange(0, state@.len() as int) == state@
                &&& forall|i: int| state@.len() <= i < self.slot_size ==> p.1@[i] == 0
            },
            r matches Err(e) ==> e == if index >= self.pool_count {
                FeedError::IndexOutOfBounds
            } else {
                FeedError::TooLarge
            },
    {
        let pool_count: usize = self.pool_count;
        let slot_size: usize = self.slot_size;
        if index >= pool_count {
            return Err(FeedError::IndexOutOfBounds);
        }
        if state.len() > slot_size {
            return Err(FeedError::TooLarge);
        }
        let mut padded: Vec<u8> = Vec::new();
        let mut i: usize = 0;
        while i < slot_size
            invariant
                i <= slot_size,
                state@.len() <= slot_size,
                padded@.len() == i,
                forall|j: int| 0 <= j < i && j < state@.len() ==> padded@[j] == state@[j],
                forall|j: int| state@.len() <= j < i ==> padded@[j] == 0,
            decreases slot_size - i,
        {
            if i < state.len() {
                padded.push(state[i]);
            } else {
                padded.push(0);
            }
            i = i + 1;
        }
        proof {
            assert(padded@.subrange(0, state@.len() as int) =~= state@);
            assert(index * slot_size + slot_size <= pool_count * slot_size) by (nonlinear_arith)
                requires
                    index < pool_count,
                    slot_size >= 0,
            ;
        }
        Ok((index * slot_size, padded))
    }
}

} // verus!
