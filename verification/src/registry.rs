//! The slot that holds the best opportunity seen so far.

use vstd::prelude::*;
use crate::address::Address;
use crate::double::Double;

verus! {

/// An amount of tokens: a 256-bit number, highest byte first.
pub type Amount = [u8; 32];

/// The best round trip seen so far: buy on one venue, sell on another.
#[derive(Clone, Copy, Debug, PartialEq, Eq)]
pub struct BestTrade {
    pub profit_usdc: Double,
    pub buy_dex: Address,
    pub buy_token_in: Address,
    pub buy_token_out: Address,
    pub buy_fee: u32,
    pub buy_amount: Amount,
    pub sell_dex: Address,
    pub sell_token_in: Address,
    pub sell_token_out: Address,
    pub sell_fee: u32,
    pub sell_amount: Amount,
}

/// Some byte is not zero.
pub open spec fn has_nonzero(bytes: Seq<u8>) -> bool {
    exists|i: int| 0 <= i < bytes.len() && #[trigger] bytes[i] != 0
}

/// Whether some byte is not zero.
pub fn any_nonzero(bytes: &[u8]) -> (r: bool)
    ensures
        r == has_nonzero(bytes@),
{
    let mut i: usize = 0;
    while i < bytes.len()
        invariant
            i <= bytes@.len(),
            forall|j: int| 0 <= j < i ==> bytes@[j] == 0,
        decreases bytes@.len() - i,
    {
        if bytes[i] != 0 {
            return true;
        }
        i = i + 1;
    }
    false
}

impl BestTrade {
    /// The slot before any opportunity was seen: no profit, every byte zero.
    pub open spec fn spec_is_initial(self) -> bool {
        &&& self.profit_usdc.bits == 0
        &&& self.buy_fee == 0
        &&& self.sell_fee == 0
        &&& !has_nonzero(self.buy_dex@)
        &&& !has_nonzero(self.buy_token_in@)
        &&& !has_nonzero(self.buy_token_out@)
        &&& !has_nonzero(self.buy_amount@)
        &&& !has_nonzero(self.sell_dex@)
        &&& !has_nonzero(self.sell_token_in@)
        &&& !has_nonzero(self.sell_token_out@)
        &&& !has_nonzero(self.sell_amount@)
    }

    /// The slot holds something worth sending: a profit above zero, a fee
    /// above zero, or a venue address with a byte that is not zero.
    pub open spec fn spec_is_non_initial(&self) -> bool {
        ||| (Double { bits: 0 }).spec_lt(self.profit_usdc)
        ||| self.buy_fee > 0
        ||| self.sell_fee > 0
        ||| has_nonzero(self.buy_dex@)
        ||| has_nonzero(self.sell_dex@)
    }

    /// A candidate with this profit would take the slot: its profit lies
    /// strictly above the one held.
    pub open spec fn spec_admits(&self, profit: Double) -> bool {
        self.profit_usdc.spec_lt(profit)
    }

    /// The slot after a candidate was offered.
    pub open spec fn after_offer(self, candidate: BestTrade) -> BestTrade {
        if self.spec_admits(candidate.profit_usdc) {
            candidate
        } else {
            self
        }
    }

    /// The slot after a run of candidates was offered, one after another.
    pub open spec fn after_offers(self, candidates: Seq<BestTrade>) -> BestTrade
        decreases candidates.len(),
    {
        if candidates.len() == 0 {
            self
        } else {
            self.after_offers(candidates.drop_last()).after_offer(candidates.last())
        }
    }

    /// The slot before any opportunity was seen.
    pub fn new() -> (r: BestTrade)
        ensures
            r.spec_is_initial(),
            !r.spec_is_non_initial(),
    {
        let r = BestTrade {
            profit_usdc: Double { bits: 0 },
            buy_dex: [0u8; 20],
            buy_token_in: [0u8; 20],
            buy_token_out: [0u8; 20],
            buy_fee: 0,
            buy_amount: [0u8; 32],
            sell_dex: [0u8; 20],
            sell_token_in: [0u8; 20],
            sell_token_out: [0u8; 20],
            sell_fee: 0,
            sell_amount: [0u8; 32],
        };
        r
    }

    /// Whether the slot holds something worth sending.
    #[verifier::when_used_as_spec(spec_is_non_initial)]
    pub fn is_non_initial(&self) -> (r: bool)
        ensures
            r == self.spec_is_non_initial(),
    {
        Double::from_bits(0).lt(self.profit_usdc) || self.buy_fee > 0 || self.sell_fee > 0
            || any_nonzero(self.buy_dex.as_slice()) || any_nonzero(self.sell_dex.as_slice())
    }

    /// Whether a candidate with this profit would take the slot.
    #[verifier::when_used_as_spec(spec_admits)]
    pub fn admits(&self, profit: Double) -> (r: bool)
        ensures
            r == self.spec_admits(profit),
    {
        self.profit_usdc.lt(profit)
    }

    /// Offers a candidate. It takes the slot, whole, if its profit lies
    /// strictly above the one held; else the slot stays as it is.
    pub fn offer(&mut self, candidate: &BestTrade) -> (taken: bool)
        ensures
            taken == old(self).spec_admits(candidate.profit_usdc),
            *final(self) == old(self).after_offer(*candidate),
            taken ==> *final(self) == *candidate,
            !taken ==> *final(self) == *old(self),
    {
        if self.admits(candidate.profit_usdc) {
            *self = *candidate;
            true
        } else {
            false
        }
    }
}

/// An offer never lowers the profit held: the slot is either untouched or
/// holds a strictly higher profit.
pub proof fn lemma_offer_never_lowers(slot: BestTrade, candidate: BestTrade)
    ensures
        slot.after_offer(candidate) == slot || slot.profit_usdc.spec_lt(
            slot.after_offer(candidate).profit_usdc,
        ),
        !slot.profit_usdc.spec_is_nan() ==> slot.profit_usdc.spec_le(
            slot.after_offer(candidate).profit_usdc,
        ),
        !slot.profit_usdc.spec_is_nan() ==> !slot.after_offer(candidate).profit_usdc.spec_is_nan(),
{
}

/// A candidate whose profit does not lie above the one held leaves the slot
/// as it was, bit for bit.
pub proof fn lemma_lower_offer_changes_nothing(slot: BestTrade, candidate: BestTrade)
    requires
        candidate.profit_usdc.spec_le(slot.profit_usdc),
    ensures
        slot.after_offer(candidate) == slot,
{
}

/// Over any run of offers the profit held never falls.
pub proof fn lemma_offers_never_lower(slot: BestTrade, candidates: Seq<BestTrade>)
    requires
        !slot.profit_usdc.spec_is_nan(),
    ensures
        !slot.after_offers(candidates).profit_usdc.spec_is_nan(),
        slot.profit_usdc.spec_le(slot.after_offers(candidates).profit_usdc),
    decreases candidates.len(),
{
    if candidates.len() > 0 {
        lemma_offers_never_lower(slot, candidates.drop_last());
        lemma_offer_never_lowers(slot.after_offers(candidates.drop_last()), candidates.last());
    }
}

} // verus!
