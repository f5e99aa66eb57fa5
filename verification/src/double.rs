//! IEEE-754 binary64 numbers by bit pattern.
//!
//! A finite binary64 number is an integer multiple of 2^-1074. The model
//! used in contracts is therefore an integer: the number times 2^1074
//! ([`Double::scaled`]). Infinity is placed just above the largest finite
//! magnitude, so that the order of the model is the order of the numbers.

use vstd::prelude::*;
use vstd::arithmetic::power2::{pow2, lemma_pow2_pos, lemma_pow2_adds, lemma_pow2_strictly_increases};
use vstd::arithmetic::mul::{lemma_mul_strict_inequality, lemma_mul_inequality, lemma_mul_is_associative, lemma_mul_is_commutative};

verus! {

/// Weight of the lowest exponent bit: 2^52.
pub const FRACTION_SPAN: u64 = 0x10_0000_0000_0000;

/// The sign bit.
pub const SIGN_BIT: u64 = 0x8000_0000_0000_0000;

/// Bit pattern of positive infinity. Larger magnitudes are NaN.
pub const INFINITY_BITS: u64 = 0x7ff0_0000_0000_0000;

/// The model of the whole number `n`: `n` times 2^1074.
pub open spec fn whole(n: nat) -> int {
    (n * pow2(1074)) as int
}

/// Magnitude, times 2^1074, of the number whose bits without the sign are
/// `abs`.
pub open spec fn magnitude_of(abs: u64) -> nat {
    let e = (abs / FRACTION_SPAN) as nat;
    let f = (abs % FRACTION_SPAN) as nat;
    if e == 0 {
        f
    } else {
        (FRACTION_SPAN as nat + f) * pow2((e - 1) as nat)
    }
}

/// A binary64 number, held as its 64 bits. `==` is identity of bits; the
/// numeric order is given by [`Double::lt`] and its siblings.
#[derive(Clone, Copy, Debug, PartialEq, Eq, Structural)]
pub struct Double {
    pub bits: u64,
}

impl Double {
    /// The bits without the sign.
    pub open spec fn spec_abs_bits(self) -> u64 {
        if self.bits >= SIGN_BIT {
            (self.bits - SIGN_BIT) as u64
        } else {
            self.bits
        }
    }

    /// The sign bit is set (also true of -0 and of some NaN).
    pub open spec fn spec_is_negative(self) -> bool {
        self.bits >= SIGN_BIT
    }

    /// Not a number.
    pub open spec fn spec_is_nan(self) -> bool {
        self.spec_abs_bits() > INFINITY_BITS
    }

    /// Neither NaN nor infinite.
    pub open spec fn spec_is_finite(self) -> bool {
        self.spec_abs_bits() < INFINITY_BITS
    }

    /// The magnitude times 2^1074.
    pub open spec fn magnitude(self) -> nat {
        magnitude_of(self.spec_abs_bits())
    }

    /// The number times 2^1074. Meaningful where `!self.spec_is_nan()`.
    pub open spec fn scaled(self) -> int {
        if self.spec_is_negative() {
            -(self.magnitude() as int)
        } else {
            self.magnitude() as int
        }
    }

    /// `self < other` as numbers; false where either is NaN.
    pub open spec fn spec_lt(self, other: Double) -> bool {
        !self.spec_is_nan() && !other.spec_is_nan() && self.scaled() < other.scaled()
    }

    /// `self <= other` as numbers; false where either is NaN.
    pub open spec fn spec_le(self, other: Double) -> bool {
        !self.spec_is_nan() && !other.spec_is_nan() && self.scaled() <= other.scaled()
    }

    /// The smaller of two numbers; where one is NaN, the other.
    pub open spec fn spec_min(self, other: Double) -> Double {
        if self.spec_is_nan() {
            other
        } else if other.spec_is_nan() {
            self
        } else if self.scaled() < other.scaled() {
            self
        } else {
            other
        }
    }

    /// The number cut to a whole number of 128 bits: NaN and negative
    /// numbers give 0, numbers of 2^128 and more give the largest value,
    /// every other number loses what stands behind the point.
    pub open spec fn spec_to_u128(self) -> u128 {
        if self.spec_is_nan() || self.spec_is_negative() {
            0
        } else if self.magnitude() / pow2(1074) > u128::MAX {
            u128::MAX
        } else {
            (self.magnitude() / pow2(1074)) as u128
        }
    }

    pub fn from_bits(bits: u64) -> (r: Double)
        ensures
            r.bits == bits,
    {
        Double { bits }
    }

    pub fn to_bits(self) -> (r: u64)
        ensures
            r == self.bits,
    {
        self.bits
    }

    #[verifier::when_used_as_spec(spec_abs_bits)]
    pub fn abs_bits(self) -> (r: u64)
        ensures
            r == self.spec_abs_bits(),
            r < SIGN_BIT,
    {
        if self.bits >= SIGN_BIT {
            self.bits - SIGN_BIT
        } else {
            self.bits
        }
    }

    #[verifier::when_used_as_spec(spec_is_negative)]
    pub fn is_negative(self) -> (r: bool)
        ensures
            r == self.spec_is_negative(),
    {
        self.bits >= SIGN_BIT
    }

    #[verifier::when_used_as_spec(spec_is_nan)]
    pub fn is_nan(self) -> (r: bool)
        ensures
            r == self.spec_is_nan(),
    {
        self.abs_bits() > INFINITY_BITS
    }

    #[verifier::when_used_as_spec(spec_is_finite)]
    pub fn is_finite(self) -> (r: bool)
        ensures
            r == self.spec_is_finite(),
    {
        self.abs_bits() < INFINITY_BITS
    }

    /// `self < other`, as the comparison of two binary64 numbers gives it.
    #[verifier::when_used_as_spec(spec_lt)]
    pub fn lt(self, other: Double) -> (r: bool)
        ensures
            r == self.spec_lt(other),
    {
        if self.is_nan() || other.is_nan() {
            return false;
        }
        let a: u64 = self.abs_bits();
        let b: u64 = other.abs_bits();
        proof {
            lemma_magnitude_order(a, b);
            lemma_magnitude_zero(a);
            lemma_magnitude_zero(b);
        }
        if self.is_negative() {
            if other.is_negative() {
                b < a
            } else {
                a != 0 || b != 0
            }
        } else {
            if other.is_negative() {
                false
            } else {
                a < b
            }
        }
    }

    /// `self > other`.
    pub fn gt(self, other: Double) -> (r: bool)
        ensures
            r == other.spec_lt(self),
    {
        other.lt(self)
    }

    /// `self <= other`.
    #[verifier::when_used_as_spec(spec_le)]
    pub fn le(self, other: Double) -> (r: bool)
        ensures
            r == self.spec_le(other),
    {
        if self.is_nan() || other.is_nan() {
            return false;
        }
        !other.lt(self)
    }

    /// `self >= other`.
    pub fn ge(self, other: Double) -> (r: bool)
        ensures
            r == other.spec_le(self),
    {
        other.le(self)
    }

    /// The smaller of the two; where one is NaN, the other. Of two zeros
    /// of different sign it gives `other`.
    #[verifier::when_used_as_spec(spec_min)]
    pub fn min(self, other: Double) -> (r: Double)
        ensures
            r == self.spec_min(other),
    {
        if self.is_nan() {
            other
        } else if other.is_nan() {
            self
        } else if self.lt(other) {
            self
        } else {
            other
        }
    }

    /// The binary64 number equal to `n`. Every `u32` is one exactly.
    pub fn from_u32(n: u32) -> (r: Double)
        ensures
            !r.spec_is_nan(),
            r.spec_is_finite(),
            !r.spec_is_negative(),
            r.scaled() == whole(n as nat),
    {
        if n == 0 {
            proof {
                lemma_pow2_pos(1074);
            }
            return Double { bits: 0 };
        }
        // Shift the leading one of `n` up to bit 52.
        let mut m: u64 = n as u64;
        let mut e: u64 = 1075;
        proof {
            vstd::arithmetic::power2::lemma2_to64();
        }
        while m < FRACTION_SPAN
            invariant
                0 < m < 2 * FRACTION_SPAN,
                1023 <= e <= 1075,
                m * pow2((e - 1) as nat) == whole(n as nat),
                m >= pow2((1075 - e) as nat),
            decreases e,
        {
            proof {
                let p = pow2((e - 2) as nat);
                lemma_pow2_adds(1, (e - 2) as nat);
                vstd::arithmetic::power2::lemma2_to64();
                vstd::arithmetic::power2::lemma2_to64_rest();
                assert(pow2((e - 1) as nat) == 2 * p);
                assert((2 * m) * p == m * (2 * p)) by (nonlinear_arith);
                if e == 1023 {
                    // m >= 2^52 contradicts the loop condition
                    assert(pow2(52) == 0x10_0000_0000_0000);
                    assert(false);
                }
                lemma_pow2_adds(1, (1075 - e) as nat);
                assert(pow2((1075 - e + 1) as nat) == 2 * pow2((1075 - e) as nat));
            }
            m = 2 * m;
            e = e - 1;
        }
        let bits: u64 = e * FRACTION_SPAN + (m - FRACTION_SPAN);
        proof {
            assert(bits / FRACTION_SPAN == e);
            assert(bits % FRACTION_SPAN == m - FRACTION_SPAN);
            assert(bits < INFINITY_BITS);
        }
        Double { bits }
    }

    /// The number cut to a whole number of 128 bits, as a saturating
    /// conversion does it.
    #[verifier::when_used_as_spec(spec_to_u128)]
    pub fn to_u128(self) -> (r: u128)
        ensures
            r == self.spec_to_u128(),
    {
        if self.is_nan() || self.is_negative() {
            return 0;
        }
        let abs: u64 = self.abs_bits();
        let e: u64 = abs / FRACTION_SPAN;
        let f: u64 = abs % FRACTION_SPAN;
        if e < 1023 {
            proof {
                lemma_magnitude_below_one(abs);
                lemma_pow2_pos(1074);
                vstd::arithmetic::div_mod::lemma_basic_div(self.magnitude() as int, pow2(1074) as int);
            }
            return 0;
        }
        let m: u64 = FRACTION_SPAN + f;
        if e >= 1151 {
            proof {
                lemma_magnitude_huge(abs);
            }
            return u128::MAX;
        }
        if e >= 1075 {
            let k: u32 = (e - 1075) as u32;
            let p: u128 = pow2_u128(k);
            proof {
                // magnitude = m * 2^(e-1) = (m * 2^k) * 2^1074
                lemma_pow2_adds(k as nat, 1074);
                lemma_mul_is_associative(m as int, pow2(k as nat) as int, pow2(1074) as int);
                lemma_pow2_pos(1074);
                vstd::arithmetic::div_mod::lemma_div_by_multiple((m * p) as int, pow2(1074) as int);
                lemma_pow2_pos(k as nat);
                if k < 75 {
                    lemma_pow2_strictly_increases(k as nat, 75);
                }
                lemma_pow2_adds(53, 75);
                vstd::arithmetic::power2::lemma2_to64();
                vstd::arithmetic::power2::lemma2_to64_rest();
                assert(m < pow2(53));
                assert(m * p < pow2(53) * pow2(75)) by (nonlinear_arith)
                    requires
                        0 < m < pow2(53),
                        0 < p <= pow2(75),
                ;
                lemma_pow2_strictly_increases(128, 129);
                assert(pow2(128) == 0x1_0000_0000_0000_0000_0000_0000_0000_0000) by {
                    lemma_pow2_adds(64, 64);
                }
            }
            (m as u128) * p
        } else {
            let k: u32 = (1075 - e) as u32;
            let p: u128 = pow2_u128(k);
            proof {
                // magnitude = m * 2^(e-1), and 2^1074 = 2^k * 2^(e-1)
                lemma_pow2_adds(k as nat, (e - 1) as nat);
                lemma_pow2_pos((e - 1) as nat);
                lemma_pow2_pos(k as nat);
                vstd::arithmetic::div_mod::lemma_div_multiples_vanish_quotient(
                    pow2((e - 1) as nat) as int,
                    m as int,
                    p as int,
                );
                lemma_mul_is_commutative(m as int, pow2((e - 1) as nat) as int);
                lemma_mul_is_commutative(p as int, pow2((e - 1) as nat) as int);
            }
            (m as u128) / p
        }
    }
}

/// 2^k as a machine number.
pub fn pow2_u128(k: u32) -> (r: u128)
    requires
        k < 128,
    ensures
        r == pow2(k as nat),
{
    let mut r: u128 = 1;
    let mut i: u32 = 0;
    proof {
        vstd::arithmetic::power2::lemma2_to64();
    }
    while i < k
        invariant
            i <= k < 128,
            r == pow2(i as nat),
        decreases k - i,
    {
        proof {
            lemma_pow2_adds(i as nat, 1);
            vstd::arithmetic::power2::lemma2_to64();
            lemma_pow2_strictly_increases((i + 1) as nat, 128);
            lemma_pow2_adds(64, 64);
        }
        r = r * 2;
        i = i + 1;
    }
    r
}

/// The magnitude grows with the bits: binary64 numbers of one sign are
/// ordered as their bit patterns are.
pub proof fn lemma_magnitude_increases(x: u64, y: u64)
    requires
        x < y,
    ensures
        magnitude_of(x) < magnitude_of(y),
{
    let s = FRACTION_SPAN as nat;
    let e1 = (x / FRACTION_SPAN) as nat;
    let f1 = (x % FRACTION_SPAN) as nat;
    let e2 = (y / FRACTION_SPAN) as nat;
    let f2 = (y % FRACTION_SPAN) as nat;
    if e1 == e2 {
        assert(f1 < f2);
        if e1 != 0 {
            let p = pow2((e1 - 1) as nat);
            lemma_pow2_pos((e1 - 1) as nat);
            lemma_mul_strict_inequality((s + f1) as int, (s + f2) as int, p as int);
        }
    } else {
        assert(e1 < e2);
        let upper = pow2((e2 - 1) as nat);
        lemma_pow2_pos((e2 - 1) as nat);
        // magnitude_of(y) >= s * upper
        lemma_mul_inequality(s as int, (s + f2) as int, upper as int);
        if e1 == 0 {
            assert(s * 1 <= s * upper) by (nonlinear_arith)
                requires
                    upper >= 1,
            ;
        } else {
            let lower = pow2((e1 - 1) as nat);
            lemma_pow2_pos((e1 - 1) as nat);
            lemma_mul_strict_inequality((s + f1) as int, (2 * s) as int, lower as int);
            // 2 * s * lower == s * pow2(e1) <= s * upper
            lemma_pow2_adds(1, (e1 - 1) as nat);
            vstd::arithmetic::power2::lemma2_to64();
            assert(pow2(e1) == 2 * lower);
            if e1 < e2 - 1 {
                lemma_pow2_strictly_increases(e1, (e2 - 1) as nat);
            }
            assert(pow2(e1) <= upper);
            assert((2 * s) * lower == s * pow2(e1)) by (nonlinear_arith)
                requires
                    pow2(e1) == 2 * lower,
            ;
            assert(s * pow2(e1) <= s * upper) by (nonlinear_arith)
                requires
                    pow2(e1) <= upper,
                    s >= 0,
            ;
        }
    }
}

/// Two magnitudes compare as their bits do.
pub proof fn lemma_magnitude_order(x: u64, y: u64)
    ensures
        x < y <==> magnitude_of(x) < magnitude_of(y),
        x == y <==> magnitude_of(x) == magnitude_of(y),
{
    if x < y {
        lemma_magnitude_increases(x, y);
    } else if y < x {
        lemma_magnitude_increases(y, x);
    }
}

/// Only the zero pattern has magnitude zero.
pub proof fn lemma_magnitude_zero(x: u64)
    ensures
        magnitude_of(x) == 0 <==> x == 0,
{
    lemma_magnitude_order(0, x);
}

/// Patterns with an exponent field under 1023 stand for magnitudes under 1.
proof fn lemma_magnitude_below_one(x: u64)
    requires
        x / FRACTION_SPAN < 1023,
    ensures
        magnitude_of(x) < pow2(1074),
{
    let one: u64 = 0x3ff0_0000_0000_0000;
    assert(one / FRACTION_SPAN == 1023);
    assert(one % FRACTION_SPAN == 0);
    lemma_magnitude_increases(x, one);
    lemma_pow2_adds(52, 1022);
    vstd::arithmetic::power2::lemma2_to64();
    vstd::arithmetic::power2::lemma2_to64_rest();
    assert(pow2(52) == 0x10_0000_0000_0000);
}

/// Patterns with an exponent field of 1151 and more stand for magnitudes
/// of 2^128 and more.
proof fn lemma_magnitude_huge(x: u64)
    requires
        x / FRACTION_SPAN >= 1151,
    ensures
        magnitude_of(x) / pow2(1074) > u128::MAX,
{
    let low: u64 = 0x47f0_0000_0000_0000;
    assert(low / FRACTION_SPAN == 1151);
    assert(low % FRACTION_SPAN == 0);
    if low < x {
        lemma_magnitude_increases(low, x);
    }
    // magnitude_of(low) = 2^52 * 2^1150 = 2^128 * 2^1074
    vstd::arithmetic::power2::lemma2_to64();
    vstd::arithmetic::power2::lemma2_to64_rest();
    assert(pow2(52) == 0x10_0000_0000_0000);
    lemma_pow2_adds(52, 1150);
    lemma_pow2_adds(128, 1074);
    lemma_pow2_adds(64, 64);
    lemma_pow2_pos(1074);
    assert(magnitude_of(low) == pow2(128) * pow2(1074));
    vstd::arithmetic::div_mod::lemma_div_by_multiple(pow2(128) as int, pow2(1074) as int);
    vstd::arithmetic::div_mod::lemma_div_is_ordered(
        magnitude_of(low) as int,
        magnitude_of(x) as int,
        pow2(1074) as int,
    );
}

} // verus!
