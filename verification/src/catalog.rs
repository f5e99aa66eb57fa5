//! The catalog of pairs: which pools of which venues trade the same pair.

use vstd::prelude::*;

verus! {

/// A pool of one venue.
#[derive(Clone, Debug, PartialEq, Eq)]
pub struct ExchangeInfo {
    pub pair_address: String,
    pub liquidity: u64,
}

/// A pair, with its pool on each venue that has one.
#[derive(Clone, Debug, PartialEq, Eq)]
pub struct PairData {
    pub pair: String,
    pub uni_swap: Option<ExchangeInfo>,
    pub camelot: Option<ExchangeInfo>,
    pub pancake_swap: Option<ExchangeInfo>,
}

/// The pairs of pools to scan, by the two venues that they lie on. An
/// entry holds the first venue's pool, the second venue's pool, the pair's
/// name, and the place of the first pool in the feed of pool states.
#[derive(Clone, Debug, PartialEq, Eq)]
pub struct PairCategories {
    pub camelot_uniswap: Vec<(String, String, String, usize)>,
    pub camelot_pancakeswap: Vec<(String, String, String, usize)>,
    pub pancakeswap_uniswap: Vec<(String, String, String, usize)>,
}

/// An entry as plain values.
pub type EntryView = (Seq<char>, Seq<char>, Seq<char>, nat);

/// An entry as plain values.
pub open spec fn entry_view(e: (String, String, String, usize)) -> EntryView {
    (e.0@, e.1@, e.2@, e.3 as nat)
}

/// The entries of a list as plain values.
pub open spec fn entries_view(v: Seq<(String, String, String, usize)>) -> Seq<EntryView> {
    v.map_values(|e: (String, String, String, usize)| entry_view(e))
}

/// The pair has a pool on Camelot and one on Uniswap.
pub open spec fn on_camelot_uniswap(p: PairData) -> bool {
    p.camelot is Some && p.uni_swap is Some
}

/// The pair has a pool on Camelot and one on PancakeSwap.
pub open spec fn on_camelot_pancakeswap(p: PairData) -> bool {
    p.camelot is Some && p.pancake_swap is Some
}

/// The pair has a pool on PancakeSwap and one on Uniswap.
pub open spec fn on_pancakeswap_uniswap(p: PairData) -> bool {
    p.pancake_swap is Some && p.uni_swap is Some
}

/// Number of places in the feed that a pair takes: two for each two venues
/// that both have a pool of it.
pub open spec fn places_of(p: PairData) -> nat {
    (if on_camelot_uniswap(p) {
        2nat
    } else {
        0nat
    }) + (if on_camelot_pancakeswap(p) {
        2nat
    } else {
        0nat
    }) + (if on_pancakeswap_uniswap(p) {
        2nat
    } else {
        0nat
    })
}

/// Number of places in the feed that the pairs take together.
pub open spec fn places(pairs: Seq<PairData>) -> nat
    decreases pairs.len(),
{
    if pairs.len() == 0 {
        0
    } else {
        places(pairs.drop_last()) + places_of(pairs.last())
    }
}

/// The Camelot-Uniswap entries of some pairs, in their order.
pub open spec fn camelot_uniswap_of(pairs: Seq<PairData>) -> Seq<EntryView>
    decreases pairs.len(),
{
    if pairs.len() == 0 {
        Seq::empty()
    } else {
        let p = pairs.last();
        let before = camelot_uniswap_of(pairs.drop_last());
        if on_camelot_uniswap(p) {
            before.push(
                (
                    p.camelot.unwrap().pair_address@,
                    p.uni_swap.unwrap().pair_address@,
                    p.pair@,
                    places(pairs.drop_last()),
                ),
            )
        } else {
            before
        }
    }
}

/// The Camelot-PancakeSwap entries of some pairs, in their order.
pub open spec fn camelot_pancakeswap_of(pairs: Seq<PairData>) -> Seq<EntryView>
    decreases pairs.len(),
{
    if pairs.len() == 0 {
        Seq::empty()
    } else {
        let p = pairs.last();
        let before = camelot_pancakeswap_of(pairs.drop_last());
        if on_camelot_pancakeswap(p) {
            before.push(
                (
                    p.camelot.unwrap().pair_address@,
                    p.pancake_swap.unwrap().pair_address@,
                    p.pair@,
                    places(pairs.drop_last()) + (if on_camelot_uniswap(p) {
                        2nat
                    } else {
                        0nat
                    }),
                ),
            )
        } else {
            before
        }
    }
}

/// The PancakeSwap-Uniswap entries of some pairs, in their order.
pub open spec fn pancakeswap_uniswap_of(pairs: Seq<PairData>) -> Seq<EntryView>
    decreases pairs.len(),
{
    if pairs.len() == 0 {
        Seq::empty()
    } else {
        let p = pairs.last();
        let before = pancakeswap_uniswap_of(pairs.drop_last());
        if on_pancakeswap_uniswap(p) {
            before.push(
                (
                    p.pancake_swap.unwrap().pair_address@,
                    p.uni_swap.unwrap().pair_address@,
                    p.pair@,
                    places(pairs.drop_last()) + (if on_camelot_uniswap(p) {
                        2nat
                    } else {
                        0nat
                    }) + (if on_camelot_pancakeswap(p) {
                        2nat
                    } else {
                        0nat
                    }),
                ),
            )
        } else {
            before
        }
    }
}

/// The categories `c` are those of the pairs.
pub open spec fn categories_of(c: PairCategories, pairs: Seq<PairData>) -> bool {
    &&& entries_view(c.camelot_uniswap@) == camelot_uniswap_of(pairs)
    &&& entries_view(c.camelot_pancakeswap@) == camelot_pancakeswap_of(pairs)
    &&& entries_view(c.pancakeswap_uniswap@) == pancakeswap_uniswap_of(pairs)
}

/// Sorts the pairs by the two venues that both have a pool of them, and
/// counts the places that they take in the feed. `None` where the count
/// does not fit the machine's word.
pub fn categorize_pairs(pairs: &Vec<PairData>) -> (r: Option<(PairCategories, usize)>)
    ensures
        r is Some <==> places(pairs@) <= usize::MAX,
        r matches Some(out) ==> categories_of(out.0, pairs@) && out.1 == places(pairs@),
{
    let mut categories = PairCategories {
        camelot_uniswap: Vec::new(),
        camelot_pancakeswap: Vec::new(),
        pancakeswap_uniswap: Vec::new(),
    };
    let mut current_index: usize = 0;
    let mut i: usize = 0;
    proof {
        assert(pairs@.take(0) =~= Seq::<PairData>::empty());
        assert(entries_view(categories.camelot_uniswap@) =~= Seq::<EntryView>::empty());
        assert(entries_view(categories.camelot_pancakeswap@) =~= Seq::<EntryView>::empty());
        assert(entries_view(categories.pancakeswap_uniswap@) =~= Seq::<EntryView>::empty());
    }
    while i < pairs.len()
        invariant
            i <= pairs@.len(),
            current_index == places(pairs@.take(i as int)),
            categories_of(categories, pairs@.take(i as int)),
        decreases pairs@.len() - i,
    {
        let pair: &PairData = &pairs[i];
        let ghost done = pairs@.take(i as int);
        let ghost next = pairs@.take(i as int + 1);
        proof {
            assert(next.drop_last() =~= done);
            assert(next.last() == pairs@[i as int]);
            lemma_places_grow(pairs@, i as int + 1);
        }
        if current_index > usize::MAX - 6 {
            if places_fit(pair, current_index) {
            } else {
                return None;
            }
        }
        let ghost cu = entries_view(categories.camelot_uniswap@);
        let ghost cp = entries_view(categories.camelot_pancakeswap@);
        let ghost pu = entries_view(categories.pancakeswap_uniswap@);
        match (&pair.camelot, &pair.uni_swap) {
            (Some(camelot), Some(uniswap)) => {
                categories.camelot_uniswap.push(
                    (
                        camelot.pair_address.clone(),
                        uniswap.pair_address.clone(),
                        pair.pair.clone(),
                        current_index,
                    ),
                );
                current_index = current_index + 2;
            },
            _ => {},
        }
        match (&pair.camelot, &pair.pancake_swap) {
            (Some(camelot), Some(pancake)) => {
                categories.camelot_pancakeswap.push(
                    (
                        camelot.pair_address.clone(),
                        pancake.pair_address.clone(),
                        pair.pair.clone(),
                        current_index,
                    ),
                );
                current_index = current_index + 2;
            },
            _ => {},
        }
        match (&pair.pancake_swap, &pair.uni_swap) {
            (Some(pancake), Some(uniswap)) => {
                categories.pancakeswap_uniswap.push(
                    (
                        pancake.pair_address.clone(),
                        uniswap.pair_address.clone(),
                        pair.pair.clone(),
                        current_index,
                    ),
                );
                current_index = current_index + 2;
            },
            _ => {},
        }
        proof {
            assert(entries_view(categories.camelot_uniswap@) =~= camelot_uniswap_of(next));
            assert(entries_view(categories.camelot_pancakeswap@) =~= camelot_pancakeswap_of(next));
            assert(entries_view(categories.pancakeswap_uniswap@) =~= pancakeswap_uniswap_of(next));
        }
        i = i + 1;
    }
    proof {
        assert(pairs@.take(pairs@.len() as int) =~= pairs@);
    }
    Some((categories, current_index))
}

/// Whether the places of one more pair still fit the machine's word.
fn places_fit(pair: &PairData, current_index: usize) -> (r: bool)
    ensures
        r == (current_index + places_of(*pair) <= usize::MAX),
{
    let mut needed: usize = 0;
    if pair.camelot.is_some() && pair.uni_swap.is_some() {
        needed = needed + 2;
    }
    if pair.camelot.is_some() && pair.pancake_swap.is_some() {
        needed = needed + 2;
    }
    if pair.pancake_swap.is_some() && pair.uni_swap.is_some() {
        needed = needed + 2;
    }
    needed <= usize::MAX - current_index
}

/// The places of some pairs never fall when more pairs follow.
proof fn lemma_places_grow(pairs: Seq<PairData>, k: int)
    requires
        0 <= k <= pairs.len(),
    ensures
        places(pairs.take(k)) <= places(pairs),
    decreases pairs.len() - k,
{
    if k == pairs.len() {
        assert(pairs.take(k) =~= pairs);
    } else {
        lemma_places_grow(pairs.drop_last(), k);
        assert(pairs.drop_last().take(k) =~= pairs.take(k));
    }
}

} // verus!
