//! Scores as IEEE 754 binary64 numbers, held by their bit patterns.
//!
//! The library never computes with such a number; it classifies, compares
//! and clamps. `Binary64::scaled` says which value a pattern stands for.
//! The comparisons work on the patterns alone, and
//! `lemma_order_is_order_of_values` shows that they order the numbers as
//! their values do.

use vstd::prelude::*;
use vstd::arithmetic::power2::{
    lemma2_to64, lemma2_to64_rest, lemma_pow2_adds, lemma_pow2_pos, lemma_pow2_strictly_increases,
    lemma_pow2_unfold, pow2,
};

verus! {

/// The number of values that the fraction field can take: 2 to the 52.
pub const FRACTION_RANGE: u64 = 0x10_0000_0000_0000;

/// The bit that marks a negative number.
pub const SIGN_BIT: u64 = 0x8000_0000_0000_0000;

/// The magnitude bits of an infinity; larger magnitudes are NaN.
pub const INFINITY_BITS: u64 = 0x7FF0_0000_0000_0000;

/// The bit pattern of 0.
pub const ZERO_BITS: u64 = 0;

/// The bit pattern of 0.5.
pub const HALF_BITS: u64 = 0x3FE0_0000_0000_0000;

/// The bit pattern of 1.
pub const ONE_BITS: u64 = 0x3FF0_0000_0000_0000;

/// The bit pattern of 1.5.
pub const ONE_AND_HALF_BITS: u64 = 0x3FF8_0000_0000_0000;

/// The bit pattern of 3.
pub const THREE_BITS: u64 = 0x4008_0000_0000_0000;

/// The bit pattern of 4.
pub const FOUR_BITS: u64 = 0x4010_0000_0000_0000;

/// The bit pattern of 5.
pub const FIVE_BITS: u64 = 0x4014_0000_0000_0000;

/// The bit pattern of 8.
pub const EIGHT_BITS: u64 = 0x4020_0000_0000_0000;

/// The bit pattern of 10.
pub const TEN_BITS: u64 = 0x4024_0000_0000_0000;

/// The bit pattern of -10.
pub const MINUS_TEN_BITS: u64 = 0xC024_0000_0000_0000;

/// The bit pattern of 12.
pub const TWELVE_BITS: u64 = 0x4028_0000_0000_0000;

/// The bit pattern of 15.
pub const FIFTEEN_BITS: u64 = 0x402E_0000_0000_0000;

/// The bit pattern of 20.
pub const TWENTY_BITS: u64 = 0x4034_0000_0000_0000;

/// The bit pattern of 21.
pub const TWENTY_ONE_BITS: u64 = 0x4035_0000_0000_0000;

/// The bit pattern of 30.
pub const THIRTY_BITS: u64 = 0x403E_0000_0000_0000;

/// The bit pattern of 41.
pub const FORTY_ONE_BITS: u64 = 0x4044_8000_0000_0000;

/// The bit pattern of 50.
pub const FIFTY_BITS: u64 = 0x4049_0000_0000_0000;

/// The bit pattern of 61.
pub const SIXTY_ONE_BITS: u64 = 0x404E_8000_0000_0000;

/// The bit pattern of 81.
pub const EIGHTY_ONE_BITS: u64 = 0x4054_4000_0000_0000;

/// The bit pattern of 100.
pub const HUNDRED_BITS: u64 = 0x4059_0000_0000_0000;

/// The bit pattern of 200.
pub const TWO_HUNDRED_BITS: u64 = 0x4069_0000_0000_0000;

/// A binary64 number.
#[derive(Clone, Copy, Debug)]
pub struct Binary64 {
    /// Sign, exponent and fraction, as the standard lays them out.
    pub bits: u64,
}

impl Binary64 {
    /// The pattern without its sign bit.
    pub open spec fn magnitude(self) -> int {
        if self.bits >= SIGN_BIT {
            self.bits - SIGN_BIT
        } else {
            self.bits as int
        }
    }

    /// Whether the sign bit is set.
    pub open spec fn sign(self) -> bool {
        self.bits >= SIGN_BIT
    }

    /// Not a number.
    pub open spec fn nan(self) -> bool {
        self.magnitude() > INFINITY_BITS
    }

    /// Plus or minus infinity.
    pub open spec fn infinite(self) -> bool {
        self.magnitude() == INFINITY_BITS
    }

    /// Neither NaN nor an infinity.
    pub open spec fn finite(self) -> bool {
        self.magnitude() < INFINITY_BITS
    }

    /// The exponent field.
    pub open spec fn exponent(self) -> int {
        self.magnitude() / (FRACTION_RANGE as int)
    }

    /// The fraction field.
    pub open spec fn fraction(self) -> int {
        self.magnitude() % (FRACTION_RANGE as int)
    }

    /// The fraction, with the leading bit that a normal number implies.
    pub open spec fn significand(self) -> int {
        if self.exponent() == 0 {
            self.fraction()
        } else {
            FRACTION_RANGE + self.fraction()
        }
    }

    /// The power of two that the significand is multiplied by, counted
    /// from the smallest one, 2 to the -1074.
    pub open spec fn shift(self) -> nat {
        if self.exponent() == 0 {
            0
        } else {
            (self.exponent() - 1) as nat
        }
    }

    /// The absolute value of a finite number, times 2 to the 1074: a whole
    /// number. For an infinity, a whole number above those of all finite
    /// numbers.
    pub open spec fn scaled_magnitude(self) -> int {
        self.significand() * pow2(self.shift())
    }

    /// The value of a finite number, times 2 to the 1074.
    pub open spec fn scaled(self) -> int {
        if self.sign() {
            -self.scaled_magnitude()
        } else {
            self.scaled_magnitude()
        }
    }

    /// The number is not NaN, and its value is the whole number `n` or
    /// more.
    pub open spec fn value_at_least(self, n: int) -> bool {
        !self.nan() && self.scaled() >= n * pow2(1074)
    }

    /// The number is not NaN, and its value is the whole number `n` or
    /// less.
    pub open spec fn value_at_most(self, n: int) -> bool {
        !self.nan() && self.scaled() <= n * pow2(1074)
    }

    /// The number is not NaN, and its value is less than the whole number
    /// `n`.
    pub open spec fn value_below(self, n: int) -> bool {
        !self.nan() && self.scaled() < n * pow2(1074)
    }

    /// The number is not NaN, and its value is more than the whole number
    /// `n`.
    pub open spec fn value_above(self, n: int) -> bool {
        !self.nan() && self.scaled() > n * pow2(1074)
    }

    /// The value of the number is the whole number `n`.
    pub open spec fn is_whole(self, n: int) -> bool {
        self.finite() && self.scaled() == n * pow2(1074)
    }

    /// The value of the number is half the whole number `n`.
    pub open spec fn is_half_of(self, n: int) -> bool {
        self.finite() && 2 * self.scaled() == n * pow2(1074)
    }

    /// An integer that orders the numbers as their values do: the magnitude,
    /// negated under the sign bit. Both zeros have rank 0.
    pub open spec fn rank(self) -> int {
        if self.sign() {
            -self.magnitude()
        } else {
            self.magnitude()
        }
    }

    /// `self < other`: neither is NaN, and the ranks are in that order.
    pub open spec fn below(self, other: Binary64) -> bool {
        !self.nan() && !other.nan() && self.rank() < other.rank()
    }

    /// `self <= other`: neither is NaN, and the ranks are in that order.
    pub open spec fn at_most(self, other: Binary64) -> bool {
        !self.nan() && !other.nan() && self.rank() <= other.rank()
    }

    /// The number limited to the interval from `low` to `high`. NaN stays
    /// NaN, and a zero keeps its sign.
    pub open spec fn clamped(self, low: Binary64, high: Binary64) -> Binary64 {
        if self.below(low) {
            low
        } else if high.below(self) {
            high
        } else {
            self
        }
    }

    /// A number, not NaN, whose value lies between 0 and 100, both
    /// included.
    pub open spec fn is_percentage(self) -> bool {
        self.value_at_least(0) && self.value_at_most(100)
    }

    pub fn from_bits(bits: u64) -> (r: Binary64)
        ensures
            r.bits == bits,
    {
        Binary64 { bits }
    }

    pub fn to_bits(self) -> (r: u64)
        ensures
            r == self.bits,
    {
        self.bits
    }

    fn magnitude_bits(self) -> (r: u64)
        ensures
            r == self.magnitude(),
    {
        if self.bits >= SIGN_BIT {
            self.bits - SIGN_BIT
        } else {
            self.bits
        }
    }

    fn rank_value(self) -> (r: i128)
        ensures
            r == self.rank(),
    {
        let m: i128 = self.magnitude_bits() as i128;
        if self.bits >= SIGN_BIT {
            -m
        } else {
            m
        }
    }

    pub fn is_nan(self) -> (r: bool)
        ensures
            r == self.nan(),
    {
        self.magnitude_bits() > INFINITY_BITS
    }

    pub fn is_infinite(self) -> (r: bool)
        ensures
            r == self.infinite(),
    {
        self.magnitude_bits() == INFINITY_BITS
    }

    pub fn is_finite(self) -> (r: bool)
        ensures
            r == self.finite(),
    {
        self.magnitude_bits() < INFINITY_BITS
    }

    /// `self < other`, as the standard compares: false where either is NaN.
    pub fn lt(self, other: Binary64) -> (r: bool)
        ensures
            r == self.below(other),
    {
        !self.is_nan() && !other.is_nan() && self.rank_value() < other.rank_value()
    }

    /// `self <= other`, as the standard compares: false where either is NaN.
    pub fn le(self, other: Binary64) -> (r: bool)
        ensures
            r == self.at_most(other),
    {
        !self.is_nan() && !other.is_nan() && self.rank_value() <= other.rank_value()
    }

    /// `self > other`, as the standard compares: false where either is NaN.
    pub fn gt(self, other: Binary64) -> (r: bool)
        ensures
            r == other.below(self),
    {
        other.lt(self)
    }

    /// `self >= other`, as the standard compares: false where either is NaN.
    pub fn ge(self, other: Binary64) -> (r: bool)
        ensures
            r == other.at_most(self),
    {
        other.le(self)
    }

    /// Limits the number to the interval from `low` to `high`, which must
    /// be one: neither bound NaN, and `low` not above `high`.
    pub fn clamp(self, low: Binary64, high: Binary64) -> (r: Binary64)
        requires
            low.at_most(high),
        ensures
            r == self.clamped(low, high),
            !self.nan() ==> low.at_most(r) && r.at_most(high),
            low.at_most(self) && self.at_most(high) ==> r == self,
    {
        if self.lt(low) {
            low
        } else if self.gt(high) {
            high
        } else {
            self
        }
    }

    /// Limits the number to the interval from 0 to 100. Whatever is not NaN
    /// comes out as a percentage.
    pub fn clamp_percentage(self) -> (r: Binary64)
        ensures
            r == self.clamped(Binary64 { bits: ZERO_BITS }, Binary64 { bits: HUNDRED_BITS }),
            !self.nan() ==> r.is_percentage(),
            self.is_percentage() ==> r == self,
    {
        proof {
            lemma_clamped_percentage(self);
        }
        self.clamp(Binary64 { bits: ZERO_BITS }, Binary64 { bits: HUNDRED_BITS })
    }
}

// ------------------------------------------------- patterns and values

proof fn lemma_magnitude_increases(a: Binary64, b: Binary64)
    requires
        a.magnitude() < b.magnitude(),
    ensures
        a.scaled_magnitude() < b.scaled_magnitude(),
{
    let (sa, sb) = (a.significand(), b.significand());
    let (pa, pb) = (pow2(a.shift()) as int, pow2(b.shift()) as int);
    let range = FRACTION_RANGE as int;
    lemma_pow2_pos(a.shift());
    lemma_pow2_pos(b.shift());
    if a.exponent() == b.exponent() {
        assert(sa * pa < sb * pa) by (nonlinear_arith)
            requires
                sa < sb,
                pa > 0,
        ;
    } else if a.exponent() == 0 {
        lemma2_to64();
        assert(sa * pa < sb * pb) by (nonlinear_arith)
            requires
                0 <= sa < sb,
                pa == 1,
                pb >= 1,
        ;
    } else {
        let next = (a.shift() + 1) as nat;
        lemma_pow2_unfold(next);
        if next < b.shift() {
            lemma_pow2_strictly_increases(next, b.shift());
        }
        assert(sa * pa < sb * pb) by (nonlinear_arith)
            requires
                0 <= sa < 2 * range,
                sb >= range,
                range > 0,
                pa > 0,
                pb >= 2 * pa,
        ;
    }
}

proof fn lemma_scaled_zero()
    ensures
        (Binary64 { bits: ZERO_BITS }).scaled_magnitude() == 0,
        (Binary64 { bits: ZERO_BITS }).scaled() == 0,
{
    let zero = Binary64 { bits: ZERO_BITS };
    let p = pow2(zero.shift()) as int;
    assert(zero.significand() == 0);
    assert(zero.significand() * p == 0) by (nonlinear_arith)
        requires
            zero.significand() == 0,
    ;
}

/// The patterns below the sign bit are ordered as the absolute values are.
pub proof fn lemma_magnitude_orders_values(a: Binary64, b: Binary64)
    ensures
        a.magnitude() < b.magnitude() <==> a.scaled_magnitude() < b.scaled_magnitude(),
        a.magnitude() == b.magnitude() <==> a.scaled_magnitude() == b.scaled_magnitude(),
        a.magnitude() == 0 <==> a.scaled_magnitude() == 0,
        a.scaled_magnitude() >= 0,
{
    if a.magnitude() < b.magnitude() {
        lemma_magnitude_increases(a, b);
    }
    if b.magnitude() < a.magnitude() {
        lemma_magnitude_increases(b, a);
    }
    let zero = Binary64 { bits: ZERO_BITS };
    lemma_scaled_zero();
    if a.magnitude() > 0 {
        lemma_magnitude_increases(zero, a);
    }
}

/// The comparisons of this module are the comparisons of the values: of
/// two numbers that are not NaN, one is below the other exactly when its
/// value is less.
pub proof fn lemma_order_is_order_of_values(a: Binary64, b: Binary64)
    requires
        !a.nan(),
        !b.nan(),
    ensures
        a.below(b) <==> a.scaled() < b.scaled(),
        a.at_most(b) <==> a.scaled() <= b.scaled(),
{
    lemma_magnitude_orders_values(a, b);
    lemma_magnitude_orders_values(b, a);
}

proof fn lemma_scaled_of_pattern(x: Binary64, e: nat, v: int, halvings: nat)
    requires
        x.bits < SIGN_BIT,
        1 <= e,
        e + halvings <= 1075,
        x.bits / FRACTION_RANGE == e,
        FRACTION_RANGE + x.bits % FRACTION_RANGE == v * pow2((1075 - e - halvings) as nat),
    ensures
        pow2(halvings) * x.scaled() == v * pow2(1074),
{
    let up = (1075 - e - halvings) as nat;
    let low = (e - 1) as nat;
    lemma_pow2_adds(up, low);
    lemma_pow2_adds(halvings, (1074 - halvings) as nat);
    let (h, u, l) = (pow2(halvings) as int, pow2(up) as int, pow2(low) as int);
    let rest = pow2((1074 - halvings) as nat) as int;
    let whole = pow2(1074) as int;
    assert(x.scaled() == (v * u) * l);
    assert(h * ((v * u) * l) == v * whole) by (nonlinear_arith)
        requires
            u * l == rest,
            h * rest == whole,
    ;
}

/// The constants of this module are the patterns of the numbers that
/// their names say.
pub proof fn lemma_constants()
    ensures
        (Binary64 { bits: ZERO_BITS }).is_whole(0),
        (Binary64 { bits: HALF_BITS }).is_half_of(1),
        (Binary64 { bits: ONE_BITS }).is_whole(1),
        (Binary64 { bits: ONE_AND_HALF_BITS }).is_half_of(3),
        (Binary64 { bits: THREE_BITS }).is_whole(3),
        (Binary64 { bits: FOUR_BITS }).is_whole(4),
        (Binary64 { bits: FIVE_BITS }).is_whole(5),
        (Binary64 { bits: EIGHT_BITS }).is_whole(8),
        (Binary64 { bits: TEN_BITS }).is_whole(10),
        (Binary64 { bits: MINUS_TEN_BITS }).is_whole(-10),
        (Binary64 { bits: TWELVE_BITS }).is_whole(12),
        (Binary64 { bits: FIFTEEN_BITS }).is_whole(15),
        (Binary64 { bits: TWENTY_BITS }).is_whole(20),
        (Binary64 { bits: TWENTY_ONE_BITS }).is_whole(21),
        (Binary64 { bits: THIRTY_BITS }).is_whole(30),
        (Binary64 { bits: FORTY_ONE_BITS }).is_whole(41),
        (Binary64 { bits: FIFTY_BITS }).is_whole(50),
        (Binary64 { bits: SIXTY_ONE_BITS }).is_whole(61),
        (Binary64 { bits: EIGHTY_ONE_BITS }).is_whole(81),
        (Binary64 { bits: HUNDRED_BITS }).is_whole(100),
        (Binary64 { bits: TWO_HUNDRED_BITS }).is_whole(200),
{
    lemma2_to64();
    lemma2_to64_rest();
    lemma_scaled_zero();
    lemma_scaled_of_pattern(Binary64 { bits: HALF_BITS }, 1022, 1, 1);
    lemma_scaled_of_pattern(Binary64 { bits: ONE_BITS }, 1023, 1, 0);
    lemma_scaled_of_pattern(Binary64 { bits: ONE_AND_HALF_BITS }, 1023, 3, 1);
    lemma_scaled_of_pattern(Binary64 { bits: THREE_BITS }, 1024, 3, 0);
    lemma_scaled_of_pattern(Binary64 { bits: FOUR_BITS }, 1025, 4, 0);
    lemma_scaled_of_pattern(Binary64 { bits: FIVE_BITS }, 1025, 5, 0);
    lemma_scaled_of_pattern(Binary64 { bits: EIGHT_BITS }, 1026, 8, 0);
    lemma_scaled_of_pattern(Binary64 { bits: TEN_BITS }, 1026, 10, 0);
    assert((Binary64 { bits: MINUS_TEN_BITS }).scaled_magnitude() == (Binary64 {
        bits: TEN_BITS,
    }).scaled_magnitude());
    lemma_scaled_of_pattern(Binary64 { bits: TWELVE_BITS }, 1026, 12, 0);
    lemma_scaled_of_pattern(Binary64 { bits: FIFTEEN_BITS }, 1026, 15, 0);
    lemma_scaled_of_pattern(Binary64 { bits: TWENTY_BITS }, 1027, 20, 0);
    lemma_scaled_of_pattern(Binary64 { bits: TWENTY_ONE_BITS }, 1027, 21, 0);
    lemma_scaled_of_pattern(Binary64 { bits: THIRTY_BITS }, 1027, 30, 0);
    lemma_scaled_of_pattern(Binary64 { bits: FORTY_ONE_BITS }, 1028, 41, 0);
    lemma_scaled_of_pattern(Binary64 { bits: FIFTY_BITS }, 1028, 50, 0);
    lemma_scaled_of_pattern(Binary64 { bits: SIXTY_ONE_BITS }, 1028, 61, 0);
    lemma_scaled_of_pattern(Binary64 { bits: EIGHTY_ONE_BITS }, 1029, 81, 0);
    lemma_scaled_of_pattern(Binary64 { bits: HUNDRED_BITS }, 1029, 100, 0);
    lemma_scaled_of_pattern(Binary64 { bits: TWO_HUNDRED_BITS }, 1030, 200, 0);
}

/// Comparing with one of the whole numbers whose pattern is known is
/// comparing the value with that whole number.
pub proof fn lemma_compare_with_whole(x: Binary64, c: Binary64, n: int)
    requires
        c.is_whole(n),
    ensures
        x.below(c) <==> x.value_below(n),
        x.at_most(c) <==> x.value_at_most(n),
        c.below(x) <==> x.value_above(n),
        c.at_most(x) <==> x.value_at_least(n),
{
    if !x.nan() {
        lemma_order_is_order_of_values(x, c);
        lemma_order_is_order_of_values(c, x);
    }
}

/// A percentage is a number that compares as at least 0 and at most 100.
pub proof fn lemma_percentage(x: Binary64)
    ensures
        x.is_percentage() <==> (Binary64 { bits: ZERO_BITS }).at_most(x) && x.at_most(
            Binary64 { bits: HUNDRED_BITS },
        ),
{
    lemma_constants();
    lemma_compare_with_whole(x, Binary64 { bits: ZERO_BITS }, 0);
    lemma_compare_with_whole(x, Binary64 { bits: HUNDRED_BITS }, 100);
}

/// Limited to the interval from 0 to 100, whatever is not NaN is a
/// percentage, and a percentage stays as it is.
pub proof fn lemma_clamped_percentage(x: Binary64)
    ensures
        (Binary64 { bits: ZERO_BITS }).at_most(Binary64 { bits: HUNDRED_BITS }),
        !x.nan() ==> x.clamped(
            Binary64 { bits: ZERO_BITS },
            Binary64 { bits: HUNDRED_BITS },
        ).is_percentage(),
        x.is_percentage() ==> x.clamped(
            Binary64 { bits: ZERO_BITS },
            Binary64 { bits: HUNDRED_BITS },
        ) == x,
{
    let low = Binary64 { bits: ZERO_BITS };
    let high = Binary64 { bits: HUNDRED_BITS };
    lemma_percentage(x);
    lemma_percentage(low);
    lemma_percentage(high);
}

} // verus!
