//! What is asked of a venue's quoter, and what is made of its answer.
//!
//! A quoter is asked for the output of one whole token. The caller scales
//! the answer by the amount that it means to trade.

use vstd::prelude::*;
use vstd::arithmetic::power::{pow, lemma_pow0};
use crate::address::{Address, Venue, address_below, address_lt, is_weth, quoter_address, quoter_bytes, weth_bytes};
use crate::amount::{amount_to_u128, be_value, lemma_be_value_push, lemma_be_value_skip_zeros, u64_to_amount};
use crate::registry::Amount;

verus! {

/// Lowest price limit that a quoter takes, plus one.
pub const MIN_PRICE_LIMIT: u64 = 4295128740;

/// Which way a leg goes.
#[derive(Clone, Copy, Debug, PartialEq, Eq, Structural)]
pub enum Direction {
    /// WETH is given, the other token is taken.
    Buy,
    /// The other token is given, WETH is taken.
    Sell,
}

/// Why no quote could be asked for, or none be read.
#[derive(Clone, Copy, Debug, PartialEq, Eq, Structural)]
pub enum QuoteError {
    /// The direction is neither `BUY` nor `SELL`.
    InvalidDirection,
    /// One whole token does not fit the number that the quoter is asked with.
    DecimalsOutOfRange,
    /// The quoter's answer does not fit 128 bits.
    AmountOutOfRange,
}

/// The two tokens of a leg, each with its decimals.
#[derive(Clone, Copy, Debug, PartialEq, Eq)]
pub struct Leg {
    pub token_in: Address,
    pub token_in_decimals: u8,
    pub token_out: Address,
    pub token_out_decimals: u8,
}

/// What a quoter is asked.
#[derive(Clone, Copy, Debug, PartialEq, Eq)]
pub struct QuoteRequest {
    /// The quoter contract.
    pub quoter: Address,
    pub token_in: Address,
    pub token_out: Address,
    /// The pool's fee; `None` where the quoter takes none.
    pub fee: Option<u32>,
    /// One whole token given, in its smallest unit.
    pub amount_in: u64,
    pub sqrt_price_limit: Amount,
    /// Decimals of the token taken, by which the answer is scaled down.
    pub token_out_decimals: u8,
}

/// Reads a direction: `BUY` or `SELL`, in capitals.
pub fn parse_direction(text: &str) -> (r: Result<Direction, QuoteError>)
    ensures
        r == if text@ == "BUY"@ {
            Ok::<Direction, QuoteError>(Direction::Buy)
        } else if text@ == "SELL"@ {
            Ok(Direction::Sell)
        } else {
            Err(QuoteError::InvalidDirection)
        },
{
    let given: String = text.to_owned();
    let buy: String = "BUY".to_owned();
    let sell: String = "SELL".to_owned();
    if given == buy {
        Ok(Direction::Buy)
    } else if given == sell {
        Ok(Direction::Sell)
    } else {
        Err(QuoteError::InvalidDirection)
    }
}

/// The leg the other way round.
pub open spec fn swapped(leg: Leg) -> Leg {
    Leg {
        token_in: leg.token_out,
        token_in_decimals: leg.token_out_decimals,
        token_out: leg.token_in,
        token_out_decimals: leg.token_in_decimals,
    }
}

/// The leg as the direction wants it: a buying leg that does not give WETH
/// is turned round, and so is a selling leg that gives WETH.
pub open spec fn oriented(direction: Direction, leg: Leg) -> Leg {
    match direction {
        Direction::Buy => if leg.token_in@ != weth_bytes() {
            swapped(leg)
        } else {
            leg
        },
        Direction::Sell => if leg.token_in@ == weth_bytes() {
            swapped(leg)
        } else {
            leg
        },
    }
}

/// Turns a leg the way the direction wants it.
pub fn orient_leg(direction: Direction, leg: Leg) -> (r: Leg)
    ensures
        r == oriented(direction, leg),
{
    let gives_weth: bool = is_weth(&leg.token_in);
    let turn: bool = match direction {
        Direction::Buy => !gives_weth,
        Direction::Sell => gives_weth,
    };
    if turn {
        Leg {
            token_in: leg.token_out,
            token_in_decimals: leg.token_out_decimals,
            token_out: leg.token_in,
            token_out_decimals: leg.token_in_decimals,
        }
    } else {
        leg
    }
}

/// Where just one token of a leg is WETH, the oriented buying leg gives
/// WETH and the oriented selling leg takes it.
pub proof fn lemma_oriented_leg(direction: Direction, leg: Leg)
    requires
        (leg.token_in@ == weth_bytes()) != (leg.token_out@ == weth_bytes()),
    ensures
        direction == Direction::Buy ==> oriented(direction, leg).token_in@ == weth_bytes(),
        direction == Direction::Sell ==> oriented(direction, leg).token_out@ == weth_bytes(),
        oriented(direction, leg) == leg || oriented(direction, leg) == swapped(leg),
{
}

/// 10^(n+1) = 10 * 10^n.
proof fn lemma_pow10_step(n: nat)
    ensures
        pow(10, n + 1) == 10 * pow(10, n),
{
    reveal_with_fuel(pow, 2);
}

/// The two largest powers of ten that are used.
proof fn lemma_pow10_values()
    ensures
        pow(10, 19) == 10_000_000_000_000_000_000,
        pow(10, 38) == 100_000_000_000_000_000_000_000_000_000_000_000_000,
{
    lemma_pow0(10);
    lemma_pow10_step(0);
    lemma_pow10_step(1);
    lemma_pow10_step(2);
    lemma_pow10_step(3);
    lemma_pow10_step(4);
    lemma_pow10_step(5);
    lemma_pow10_step(6);
    lemma_pow10_step(7);
    lemma_pow10_step(8);
    lemma_pow10_step(9);
    lemma_pow10_step(10);
    lemma_pow10_step(11);
    lemma_pow10_step(12);
    lemma_pow10_step(13);
    lemma_pow10_step(14);
    lemma_pow10_step(15);
    lemma_pow10_step(16);
    lemma_pow10_step(17);
    lemma_pow10_step(18);
    lemma_pow10_step(19);
    lemma_pow10_step(20);
    lemma_pow10_step(21);
    lemma_pow10_step(22);
    lemma_pow10_step(23);
    lemma_pow10_step(24);
    lemma_pow10_step(25);
    lemma_pow10_step(26);
    lemma_pow10_step(27);
    lemma_pow10_step(28);
    lemma_pow10_step(29);
    lemma_pow10_step(30);
    lemma_pow10_step(31);
    lemma_pow10_step(32);
    lemma_pow10_step(33);
    lemma_pow10_step(34);
    lemma_pow10_step(35);
    lemma_pow10_step(36);
    lemma_pow10_step(37);
}

/// Ten to the power of `decimals`, where 64 bits hold it.
pub fn unit_amount(decimals: u8) -> (r: Option<u64>)
    ensures
        r is Some <==> decimals <= 19,
        r matches Some(v) ==> v == pow(10, decimals as nat),
{
    if decimals > 19 {
        return None;
    }
    let mut v: u64 = 1;
    let mut i: u8 = 0;
    proof {
        lemma_pow0(10);
        lemma_pow10_values();
    }
    while i < decimals
        invariant
            i <= decimals <= 19,
            v == pow(10, i as nat),
            v <= pow(10, 19),
            pow(10, 19) == 10_000_000_000_000_000_000,
        decreases decimals - i,
    {
        proof {
            lemma_pow10_step(i as nat);
            if i + 1 < 19 {
                vstd::arithmetic::power::lemma_pow_increases(10, (i + 1) as nat, 19);
            }
        }
        v = v * 10;
        i = i + 1;
    }
    Some(v)
}

/// Ten to the power of `decimals`, where 128 bits hold it.
pub fn scale_factor(decimals: u8) -> (r: Option<u128>)
    ensures
        r is Some <==> decimals <= 38,
        r matches Some(v) ==> v == pow(10, decimals as nat),
{
    if decimals > 38 {
        return None;
    }
    let mut v: u128 = 1;
    let mut i: u8 = 0;
    proof {
        lemma_pow0(10);
        lemma_pow10_values();
    }
    while i < decimals
        invariant
            i <= decimals <= 38,
            v == pow(10, i as nat),
            v <= pow(10, 38),
            pow(10, 38) == 100_000_000_000_000_000_000_000_000_000_000_000_000,
        decreases decimals - i,
    {
        proof {
            lemma_pow10_step(i as nat);
            if i + 1 < 38 {
                vstd::arithmetic::power::lemma_pow_increases(10, (i + 1) as nat, 38);
            }
        }
        v = v * 10;
        i = i + 1;
    }
    Some(v)
}

/// The price limit for a swap from one token to another, as a number.
pub open spec fn price_limit(token_from: Seq<u8>, token_to: Seq<u8>) -> nat {
    if address_below(token_from, token_to) {
        4295128740
    } else {
        1461446703485210103287273052203988822378723970341nat
    }
}

/// The highest price limit that a quoter takes.
pub fn max_price_limit() -> (a: Amount)
    ensures
        be_value(a@) == 1461446703485210103287273052203988822378723970341nat,
{
    let a: Amount = [
        0x00, 0x00, 0x00, 0x00, 0x00, 0x00, 0x00, 0x00, 0x00, 0x00, 0x00, 0x00,
        0xff, 0xfd, 0x89, 0x63, 0xef, 0xd1, 0xfc, 0x6a, 0x50, 0x64,
        0x88, 0x49, 0x5d, 0x95, 0x1d, 0x52, 0x63, 0x98, 0x8d, 0x25,
    ];
    proof {
        lemma_be_value_skip_zeros(a@, 12);
        let low = a@.skip(12);
        assert(low.take(0) =~= Seq::<u8>::empty());
        assert(be_value(low.take(0)) == 0);
        lemma_take_step(low, 0);
        lemma_take_step(low, 1);
        lemma_take_step(low, 2);
        lemma_take_step(low, 3);
        lemma_take_step(low, 4);
        lemma_take_step(low, 5);
        lemma_take_step(low, 6);
        lemma_take_step(low, 7);
        lemma_take_step(low, 8);
        lemma_take_step(low, 9);
        lemma_take_step(low, 10);
        lemma_take_step(low, 11);
        lemma_take_step(low, 12);
        lemma_take_step(low, 13);
        lemma_take_step(low, 14);
        lemma_take_step(low, 15);
        lemma_take_step(low, 16);
        lemma_take_step(low, 17);
        lemma_take_step(low, 18);
        lemma_take_step(low, 19);
        assert(low.take(20) =~= low);
    }
    a
}

/// One byte more of a sequence, read from the high end.
proof fn lemma_take_step(s: Seq<u8>, k: int)
    requires
        0 <= k < s.len(),
    ensures
        be_value(s.take(k + 1)) == be_value(s.take(k)) * 256 + s[k],
{
    assert(s.take(k + 1) =~= s.take(k).push(s[k]));
    lemma_be_value_push(s.take(k), s[k]);
}

/// The price limit for a swap from one token to another: the lowest limit
/// plus one where the first address is the smaller, else the highest.
pub fn get_price_limit(token_address_from: &Address, token_address_to: &Address) -> (r: Amount)
    ensures
        be_value(r@) == price_limit(token_address_from@, token_address_to@),
{
    if address_lt(token_address_from, token_address_to) {
        u64_to_amount(MIN_PRICE_LIMIT)
    } else {
        max_price_limit()
    }
}

/// The request that a leg makes of a venue's quoter, given the oriented
/// leg. Camelot's quoter takes no fee; PancakeSwap's takes a price limit
/// that depends on the order of the two tokens, the others take none.
pub open spec fn request_matches(
    r: QuoteRequest,
    venue: Venue,
    leg: Leg,
    pool_fee: u32,
) -> bool {
    &&& r.quoter@ == quoter_bytes(venue)
    &&& r.token_in == leg.token_in
    &&& r.token_out == leg.token_out
    &&& r.token_out_decimals == leg.token_out_decimals
    &&& r.amount_in == pow(10, leg.token_in_decimals as nat)
    &&& r.fee == match venue {
        Venue::Camelot => None::<u32>,
        _ => Some(pool_fee),
    }
    &&& be_value(r.sqrt_price_limit@) == match venue {
        Venue::PancakeSwap => price_limit(leg.token_in@, leg.token_out@),
        _ => 0,
    }
}

/// What to ask the venue's quoter for a leg in a direction. Fails only
/// where one whole token given does not fit 64 bits.
pub fn quote_request(venue: Venue, direction: Direction, leg: Leg, pool_fee: u32) -> (r: Result<
    QuoteRequest,
    QuoteError,
>)
    ensures
        r is Ok <==> oriented(direction, leg).token_in_decimals <= 19,
        r matches Ok(q) ==> request_matches(q, venue, oriented(direction, leg), pool_fee),
        r matches Err(e) ==> e == QuoteError::DecimalsOutOfRange,
{
    let leg: Leg = orient_leg(direction, leg);
    let amount_in: u64 = match unit_amount(leg.token_in_decimals) {
        Some(v) => v,
        None => {
            return Err(QuoteError::DecimalsOutOfRange);
        },
    };
    let fee: Option<u32> = match venue {
        Venue::Camelot => None,
        _ => Some(pool_fee),
    };
    let sqrt_price_limit: Amount = match venue {
        Venue::PancakeSwap => get_price_limit(&leg.token_in, &leg.token_out),
        _ => u64_to_amount(0),
    };
    Ok(
        QuoteRequest {
            quoter: quoter_address(venue),
            token_in: leg.token_in,
            token_out: leg.token_out,
            fee,
            amount_in,
            sqrt_price_limit,
            token_out_decimals: leg.token_out_decimals,
        },
    )
}

/// The quoter's answer as a number of 128 bits, and the power of ten by
/// which the caller scales it down. Fails where the answer, or that power
/// of ten, does not fit 128 bits.
pub fn read_quote(amount_out: &Amount, token_out_decimals: u8) -> (r: Result<
    (u128, u128),
    QuoteError,
>)
    ensures
        r is Ok <==> be_value(amount_out@) <= u128::MAX && token_out_decimals <= 38,
        r matches Ok(p) ==> p.0 == be_value(amount_out@) && p.1 == pow(
            10,
            token_out_decimals as nat,
        ),
        r matches Err(e) ==> e == if be_value(amount_out@) > u128::MAX {
            QuoteError::AmountOutOfRange
        } else {
            QuoteError::DecimalsOutOfRange
        },
{
    let units: u128 = match amount_to_u128(amount_out) {
        Some(v) => v,
        None => {
            return Err(QuoteError::AmountOutOfRange);
        },
    };
    match scale_factor(token_out_decimals) {
        Some(f) => Ok((units, f)),
        None => Err(QuoteError::DecimalsOutOfRange),
    }
}

/// The fee of a leg: what the quoter reports on Camelot, the pool's own
/// fee on the other venues.
pub fn effective_fee(venue: Venue, pool_fee: u32, quoter_fee: u32) -> (r: u32)
    ensures
        r == match venue {
            Venue::Camelot => quoter_fee,
            _ => pool_fee,
        },
{
    match venue {
        Venue::Camelot => quoter_fee,
        _ => pool_fee,
    }
}

} // verus!
