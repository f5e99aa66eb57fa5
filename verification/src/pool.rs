//! The state of a pool: what the chain reports of it, and what follows.

use vstd::prelude::*;
use vstd::arithmetic::power::pow;
use crate::address::{Address, Venue, is_weth, weth_bytes};
use crate::double::Double;
use crate::quote::scale_factor;
use crate::registry::{Amount, any_nonzero, has_nonzero};

verus! {

/// Decimals of a token whose own report could not be read.
pub const DEFAULT_DECIMALS: u8 = 18;

/// Fee of a PancakeSwap pool whose own report could not be read.
pub const DEFAULT_PANCAKE_FEE: u32 = 3000;

/// Why a pool's state could not be made out.
#[derive(Clone, Copy, Debug, PartialEq, Eq, Structural)]
pub enum PoolError {
    /// A Uniswap pool reports a fee that is none of the four fee tiers.
    InvalidFeeAmount,
    /// Not just one of the pool's two tokens is WETH.
    NotAWethPair,
    /// The two tokens' decimals lie too far apart.
    DecimalsOutOfRange,
    /// The pool reports a square-root price of zero, which gives no price.
    ZeroSqrtPrice,
    /// The price computed for the pool is not a finite number above zero.
    PriceOutOfRange,
}

/// The fee tiers of Uniswap V3.
#[derive(Clone, Copy, Debug, PartialEq, Eq, Structural)]
pub enum FeeAmount {
    Lowest,
    Low,
    Medium,
    High,
}

/// Which of a pool's two tokens is WETH.
#[derive(Clone, Copy, Debug, PartialEq, Eq, Structural)]
pub enum WethSide {
    Token0,
    Token1,
}

/// What the chain reports of a pool.
#[derive(Clone, Copy, Debug, PartialEq, Eq)]
pub struct PoolReading {
    pub venue: Venue,
    pub pool_address: Address,
    pub token0: Address,
    pub token1: Address,
    /// `None` where the token's report could not be read.
    pub token0_decimals: Option<u8>,
    pub token1_decimals: Option<u8>,
    /// The pool's balance of each token.
    pub token0_amount: Amount,
    pub token1_amount: Amount,
    pub sqrt_price_x96: Amount,
    pub tick: i32,
    /// `None` where the pool reports no fee, or none that could be read.
    pub fee: Option<u32>,
}

/// What is settled of a pool before any price is computed.
#[derive(Clone, Copy, Debug, PartialEq, Eq)]
pub struct PoolFacts {
    pub venue: Venue,
    pub pool_address: Address,
    pub token0: Address,
    pub token1: Address,
    pub token0_decimals: u8,
    pub token1_decimals: u8,
    pub token0_amount: Amount,
    pub token1_amount: Amount,
    pub sqrt_price_x96: Amount,
    pub tick: i32,
    pub fee: u32,
    pub weth_side: WethSide,
    /// Ten to the power of the distance between the two tokens' decimals.
    pub decimal_adjustment: u128,
}

/// The state of a pool.
#[derive(Clone, Copy, Debug, PartialEq, Eq)]
pub struct PoolState {
    pub facts: PoolFacts,
    /// The balances in whole tokens.
    pub token0_amount_adjusted: Double,
    pub token1_amount_adjusted: Double,
    /// Price of the other token in WETH.
    pub price: Double,
    /// Worth of both balances in WETH, cut to a whole number.
    pub liquidity: u128,
}

/// The fee tier that a fee stands for.
pub open spec fn fee_tier(fee: u32) -> Option<FeeAmount> {
    if fee == 100 {
        Some(FeeAmount::Lowest)
    } else if fee == 500 {
        Some(FeeAmount::Low)
    } else if fee == 3000 {
        Some(FeeAmount::Medium)
    } else if fee == 10000 {
        Some(FeeAmount::High)
    } else {
        None
    }
}

/// The fee tier of a Uniswap pool. Only 100, 500, 3000 and 10000 are fees.
pub fn uniswap_fee_amount(fee: u32) -> (r: Result<FeeAmount, PoolError>)
    ensures
        r == match fee_tier(fee) {
            Some(t) => Ok::<FeeAmount, PoolError>(t),
            None => Err(PoolError::InvalidFeeAmount),
        },
{
    if fee == 100 {
        Ok(FeeAmount::Lowest)
    } else if fee == 500 {
        Ok(FeeAmount::Low)
    } else if fee == 3000 {
        Ok(FeeAmount::Medium)
    } else if fee == 10000 {
        Ok(FeeAmount::High)
    } else {
        Err(PoolError::InvalidFeeAmount)
    }
}

/// The fee that a pool's state carries. On Uniswap it must be a fee tier;
/// on PancakeSwap a fee that could not be read counts as 3000; a Camelot
/// pool has none, which counts as 0.
pub open spec fn settled_fee(venue: Venue, reported: Option<u32>) -> Result<u32, PoolError> {
    match venue {
        Venue::Uniswap => match reported {
            Some(f) => if fee_tier(f) is Some {
                Ok(f)
            } else {
                Err(PoolError::InvalidFeeAmount)
            },
            None => Err(PoolError::InvalidFeeAmount),
        },
        Venue::PancakeSwap => match reported {
            Some(f) => Ok(f),
            None => Ok(3000u32),
        },
        Venue::Camelot => Ok(0u32),
    }
}

/// The fee that a pool's state carries.
pub fn pool_fee(venue: Venue, reported: Option<u32>) -> (r: Result<u32, PoolError>)
    ensures
        r == settled_fee(venue, reported),
{
    match venue {
        Venue::Uniswap => match reported {
            Some(f) => match uniswap_fee_amount(f) {
                Ok(_) => Ok(f),
                Err(e) => Err(e),
            },
            None => Err(PoolError::InvalidFeeAmount),
        },
        Venue::PancakeSwap => match reported {
            Some(f) => Ok(f),
            None => Ok(DEFAULT_PANCAKE_FEE),
        },
        Venue::Camelot => Ok(0),
    }
}

/// A token's decimals: what it reports, or 18 where that could not be read.
pub fn decimals_or_default(reported: Option<u8>) -> (r: u8)
    ensures
        r == match reported {
            Some(d) => d,
            None => 18u8,
        },
{
    match reported {
        Some(d) => d,
        None => DEFAULT_DECIMALS,
    }
}

/// Which of the two tokens is WETH, where just one is.
pub open spec fn spec_weth_side(token0: Seq<u8>, token1: Seq<u8>) -> Result<WethSide, PoolError> {
    if token0 == weth_bytes() && token1 != weth_bytes() {
        Ok(WethSide::Token0)
    } else if token1 == weth_bytes() && token0 != weth_bytes() {
        Ok(WethSide::Token1)
    } else {
        Err(PoolError::NotAWethPair)
    }
}

/// Which of the two tokens is WETH. Fails unless just one is.
pub fn weth_side(token0: &Address, token1: &Address) -> (r: Result<WethSide, PoolError>)
    ensures
        r == spec_weth_side(token0@, token1@),
{
    let first: bool = is_weth(token0);
    let second: bool = is_weth(token1);
    if first && !second {
        Ok(WethSide::Token0)
    } else if second && !first {
        Ok(WethSide::Token1)
    } else {
        Err(PoolError::NotAWethPair)
    }
}

/// Distance between two numbers of decimals.
pub open spec fn decimals_apart(a: u8, b: u8) -> nat {
    if a >= b {
        (a - b) as nat
    } else {
        (b - a) as nat
    }
}

/// Ten to the power of the distance between the two tokens' decimals.
/// Fails where 128 bits do not hold it: at a distance above 38.
pub fn decimal_adjustment(token0_decimals: u8, token1_decimals: u8) -> (r: Result<u128, PoolError>)
    ensures
        r is Ok <==> decimals_apart(token0_decimals, token1_decimals) <= 38,
        r matches Ok(v) ==> v == pow(10, decimals_apart(token0_decimals, token1_decimals)),
        r matches Err(e) ==> e == PoolError::DecimalsOutOfRange,
{
    let apart: u8 = if token0_decimals >= token1_decimals {
        token0_decimals - token1_decimals
    } else {
        token1_decimals - token0_decimals
    };
    match scale_factor(apart) {
        Some(v) => Ok(v),
        None => Err(PoolError::DecimalsOutOfRange),
    }
}

/// The facts `f` are what follows from the reading `r`.
pub open spec fn facts_of(f: PoolFacts, r: PoolReading) -> bool {
    &&& f.venue == r.venue
    &&& f.pool_address == r.pool_address
    &&& f.token0 == r.token0
    &&& f.token1 == r.token1
    &&& f.token0_amount == r.token0_amount
    &&& f.token1_amount == r.token1_amount
    &&& f.sqrt_price_x96 == r.sqrt_price_x96
    &&& f.tick == r.tick
    &&& f.token0_decimals == match r.token0_decimals {
        Some(d) => d,
        None => 18u8,
    }
    &&& f.token1_decimals == match r.token1_decimals {
        Some(d) => d,
        None => 18u8,
    }
    &&& settled_fee(r.venue, r.fee) == Ok::<u32, PoolError>(f.fee)
    &&& spec_weth_side(r.token0@, r.token1@) == Ok::<WethSide, PoolError>(f.weth_side)
    &&& f.decimal_adjustment == pow(10, decimals_apart(f.token0_decimals, f.token1_decimals))
    &&& has_nonzero(f.sqrt_price_x96@)
}

/// Why no facts follow from a reading, if none do: the first of a fee that
/// is none, a pair without WETH or with WETH twice, decimals too far apart,
/// and a square-root price of zero.
pub open spec fn reading_error(r: PoolReading) -> Option<PoolError> {
    let d0 = match r.token0_decimals {
        Some(d) => d,
        None => 18u8,
    };
    let d1 = match r.token1_decimals {
        Some(d) => d,
        None => 18u8,
    };
    if settled_fee(r.venue, r.fee) is Err {
        Some(PoolError::InvalidFeeAmount)
    } else if spec_weth_side(r.token0@, r.token1@) is Err {
        Some(PoolError::NotAWethPair)
    } else if decimals_apart(d0, d1) > 38 {
        Some(PoolError::DecimalsOutOfRange)
    } else if !has_nonzero(r.sqrt_price_x96@) {
        Some(PoolError::ZeroSqrtPrice)
    } else {
        None
    }
}

/// Settles what can be settled of a pool before any price is computed.
/// A reading that cannot give a price above zero gives no facts.
pub fn examine(reading: &PoolReading) -> (r: Result<PoolFacts, PoolError>)
    ensures
        match r {
            Ok(f) => reading_error(*reading) is None && facts_of(f, *reading),
            Err(e) => reading_error(*reading) == Some(e),
        },
        r matches Ok(f) ==> has_nonzero(f.sqrt_price_x96@),
{
    let fee: u32 = match pool_fee(reading.venue, reading.fee) {
        Ok(f) => f,
        Err(e) => {
            return Err(e);
        },
    };
    let side: WethSide = match weth_side(&reading.token0, &reading.token1) {
        Ok(s) => s,
        Err(e) => {
            return Err(e);
        },
    };
    let token0_decimals: u8 = decimals_or_default(reading.token0_decimals);
    let token1_decimals: u8 = decimals_or_default(reading.token1_decimals);
    let adjustment: u128 = match decimal_adjustment(token0_decimals, token1_decimals) {
        Ok(v) => v,
        Err(e) => {
            return Err(e);
        },
    };
    if !any_nonzero(reading.sqrt_price_x96.as_slice()) {
        return Err(PoolError::ZeroSqrtPrice);
    }
    Ok(
        PoolFacts {
            venue: reading.venue,
            pool_address: reading.pool_address,
            token0: reading.token0,
            token1: reading.token1,
            token0_decimals,
            token1_decimals,
            token0_amount: reading.token0_amount,
            token1_amount: reading.token1_amount,
            sqrt_price_x96: reading.sqrt_price_x96,
            tick: reading.tick,
            fee,
            weth_side: side,
            decimal_adjustment: adjustment,
        },
    )
}

/// The pool's token that is not WETH.
pub open spec fn spec_other_token(facts: PoolFacts) -> Address {
    match facts.weth_side {
        WethSide::Token0 => facts.token1,
        WethSide::Token1 => facts.token0,
    }
}

impl PoolFacts {
    /// The pool's token that is not WETH.
    pub fn other_token(&self) -> (r: Address)
        ensures
            r == spec_other_token(*self),
    {
        match self.weth_side {
            WethSide::Token0 => self.token1,
            WethSide::Token1 => self.token0,
        }
    }

    /// Decimals of WETH as the pool's tokens report them.
    pub fn weth_decimals(&self) -> (r: u8)
        ensures
            r == match self.weth_side {
                WethSide::Token0 => self.token0_decimals,
                WethSide::Token1 => self.token1_decimals,
            },
    {
        match self.weth_side {
            WethSide::Token0 => self.token0_decimals,
            WethSide::Token1 => self.token1_decimals,
        }
    }

    /// Decimals of the pool's token that is not WETH.
    pub fn other_decimals(&self) -> (r: u8)
        ensures
            r == match self.weth_side {
                WethSide::Token0 => self.token1_decimals,
                WethSide::Token1 => self.token0_decimals,
            },
    {
        match self.weth_side {
            WethSide::Token0 => self.token1_decimals,
            WethSide::Token1 => self.token0_decimals,
        }
    }
}

/// A price that a pool's state may carry: a finite number above zero.
pub open spec fn is_price(price: Double) -> bool {
    (Double { bits: 0 }).spec_lt(price) && price.spec_is_finite()
}

impl PoolState {
    /// The state of a pool, from its facts and the numbers computed from
    /// them. There is a state only where the price is a finite number
    /// above zero. The liquidity is cut to a whole number, which is not
    /// below zero.
    pub fn complete(
        facts: PoolFacts,
        token0_amount_adjusted: Double,
        token1_amount_adjusted: Double,
        price: Double,
        liquidity: Double,
    ) -> (r: Result<PoolState, PoolError>)
        ensures
            r is Ok <==> is_price(price),
            r matches Ok(s) ==> {
                &&& s.facts == facts
                &&& s.token0_amount_adjusted == token0_amount_adjusted
                &&& s.token1_amount_adjusted == token1_amount_adjusted
                &&& s.price == price
                &&& is_price(s.price)
                &&& s.liquidity == liquidity.spec_to_u128()
                &&& s.liquidity >= 0
            },
            r matches Err(e) ==> e == PoolError::PriceOutOfRange,
    {
        if !(Double::from_bits(0).lt(price) && price.is_finite()) {
            return Err(PoolError::PriceOutOfRange);
        }
        Ok(
            PoolState {
                facts,
                token0_amount_adjusted,
                token1_amount_adjusted,
                price,
                liquidity: liquidity.to_u128(),
            },
        )
    }
}

} // verus!
