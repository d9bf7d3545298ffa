//! Single-precision numbers as bit patterns.
//!
//! Every quantity the tracer compares (ray parameters, coordinates, angles,
//! colour channels) is an IEEE 754 binary32 value. This module holds such a
//! value as its 32 bits and gives the comparisons, the sign operations and the
//! conversion to integers an exact meaning over those bits. Arithmetic is the
//! caller's business: nothing here adds or multiplies.

use vstd::prelude::*;
use vstd::arithmetic::power2::{pow2, lemma_pow2_unfold, lemma_pow2_strictly_increases, lemma2_to64};

verus! {

/// The bit that carries the sign.
pub const SIGN_BIT: u32 = 0x8000_0000;

/// The bits of positive infinity; every larger magnitude is a NaN.
pub const INFINITY_BITS: u32 = 0x7f80_0000;

/// The weight of the lowest exponent bit, and the implicit leading one of a
/// normal number's significand.
pub const HIDDEN_BIT: u32 = 0x0080_0000;

/// The bits of `1.0`.
pub const ONE_BITS: u32 = 0x3f80_0000;

/// The bits of `0.5`.
pub const HALF_BITS: u32 = 0x3f00_0000;

/// The bits of `0.25`.
pub const QUARTER_BITS: u32 = 0x3e80_0000;

/// A binary32 number, identified by its bit pattern.
#[derive(Clone, Copy, Debug)]
pub struct Scalar {
    pub bits: u32,
}

impl Scalar {
    /// The bits without the sign.
    pub open spec fn magnitude(self) -> int {
        if self.bits >= SIGN_BIT {
            self.bits - SIGN_BIT
        } else {
            self.bits as int
        }
    }

    /// Whether the sign bit is set (true of `-0.0` and of some NaNs too).
    pub open spec fn sign_negative(self) -> bool {
        self.bits >= SIGN_BIT
    }

    /// Whether the pattern encodes no number.
    pub open spec fn nan(self) -> bool {
        self.magnitude() > INFINITY_BITS
    }

    /// An integer that orders the numbers as their values do: for two patterns
    /// that are not NaN, the first number is smaller exactly when its key is.
    /// Both zeros have key 0.
    pub open spec fn key(self) -> int {
        if self.sign_negative() {
            -self.magnitude()
        } else {
            self.magnitude()
        }
    }

    /// The comparison `<` of two numbers: false whenever a NaN takes part.
    pub open spec fn below(self, other: Scalar) -> bool {
        !self.nan() && !other.nan() && self.key() < other.key()
    }

    /// The comparison `<=` of two numbers: false whenever a NaN takes part.
    pub open spec fn at_most(self, other: Scalar) -> bool {
        !self.nan() && !other.nan() && self.key() <= other.key()
    }

    /// The comparison `==` of two numbers: false whenever a NaN takes part,
    /// true of the two zeros.
    pub open spec fn same(self, other: Scalar) -> bool {
        !self.nan() && !other.nan() && self.key() == other.key()
    }

    /// Whether the number is `0.0` or `-0.0`.
    pub open spec fn zero(self) -> bool {
        self.magnitude() == 0
    }

    /// The biased exponent field.
    pub open spec fn exponent(self) -> int {
        self.magnitude() / (HIDDEN_BIT as int)
    }

    /// The significand as an integer: the fraction field, with the implicit
    /// leading one unless the number is subnormal.
    pub open spec fn significand(self) -> int {
        if self.exponent() == 0 {
            self.magnitude() % (HIDDEN_BIT as int)
        } else {
            self.magnitude() % (HIDDEN_BIT as int) + HIDDEN_BIT
        }
    }

    /// The integer part of the absolute value of a finite number, whose value
    /// is `significand * 2^(exponent - 150)`.
    pub open spec fn whole(self) -> int {
        if self.exponent() >= 150 {
            self.significand() * pow2((self.exponent() - 150) as nat)
        } else {
            self.significand() / (pow2((150 - self.exponent()) as nat) as int)
        }
    }

    /// The number as an unsigned integer: rounded toward zero, with what lies
    /// outside the range brought to its nearer end, and a NaN to 0.
    pub open spec fn truncated(self) -> int {
        if self.nan() || self.sign_negative() {
            0
        } else if self.magnitude() == INFINITY_BITS || self.whole() > u32::MAX {
            u32::MAX as int
        } else {
            self.whole()
        }
    }

    /// The number with its sign flipped.
    pub open spec fn negated(self) -> Scalar {
        if self.bits >= SIGN_BIT {
            Scalar { bits: (self.bits - SIGN_BIT) as u32 }
        } else {
            Scalar { bits: (self.bits + SIGN_BIT) as u32 }
        }
    }

    /// Zero in place of a number below zero; anything else, a NaN too, as it is.
    pub open spec fn raised_to_zero(self) -> Scalar {
        if self.below(Scalar { bits: 0 }) {
            Scalar { bits: 0 }
        } else {
            self
        }
    }

    /// The number brought into the range from 0 to 1: 0 for a NaN and for
    /// what is not above zero, 1 for what is not below one.
    pub open spec fn within_unit(self) -> Scalar {
        if !(Scalar { bits: 0 }).below(self) {
            Scalar { bits: 0 }
        } else if !self.below(Scalar { bits: ONE_BITS }) {
            Scalar { bits: ONE_BITS }
        } else {
            self
        }
    }

    /// The number as an 8-bit channel: rounded toward zero, at most 255.
    pub open spec fn channel(self) -> int {
        if self.truncated() > 255 {
            255
        } else {
            self.truncated()
        }
    }

    /// The number with the given bit pattern.
    pub fn from_bits(bits: u32) -> (r: Scalar)
        ensures
            r.bits == bits,
    {
        Scalar { bits }
    }

    /// The bits without the sign.
    pub fn abs_bits(self) -> (r: u32)
        ensures
            r == self.magnitude(),
    {
        if self.bits >= SIGN_BIT {
            self.bits - SIGN_BIT
        } else {
            self.bits
        }
    }

    /// Whether the pattern encodes no number.
    pub fn is_nan(self) -> (r: bool)
        ensures
            r == self.nan(),
    {
        self.abs_bits() > INFINITY_BITS
    }

    /// Whether the number is `0.0` or `-0.0`.
    pub fn is_zero(self) -> (r: bool)
        ensures
            r == self.zero(),
    {
        self.abs_bits() == 0
    }

    /// The order key as a machine integer.
    pub fn order_key(self) -> (r: i64)
        ensures
            r == self.key(),
    {
        let magnitude: i64 = self.abs_bits() as i64;
        if self.bits >= SIGN_BIT {
            -magnitude
        } else {
            magnitude
        }
    }

    /// The comparison `<`.
    pub fn lt(self, other: Scalar) -> (r: bool)
        ensures
            r == self.below(other),
    {
        !self.is_nan() && !other.is_nan() && self.order_key() < other.order_key()
    }

    /// The comparison `<=`.
    pub fn le(self, other: Scalar) -> (r: bool)
        ensures
            r == self.at_most(other),
    {
        !self.is_nan() && !other.is_nan() && self.order_key() <= other.order_key()
    }

    /// The comparison `>`.
    pub fn gt(self, other: Scalar) -> (r: bool)
        ensures
            r == other.below(self),
    {
        other.lt(self)
    }

    /// The comparison `>=`.
    pub fn ge(self, other: Scalar) -> (r: bool)
        ensures
            r == other.at_most(self),
    {
        other.le(self)
    }

    /// The comparison `==` of the two numbers (not of their bits).
    pub fn num_eq(self, other: Scalar) -> (r: bool)
        ensures
            r == self.same(other),
    {
        !self.is_nan() && !other.is_nan() && self.order_key() == other.order_key()
    }

    /// The number with its sign flipped. Exact for every pattern: the
    /// magnitude stays, so a NaN stays a NaN.
    pub fn neg(self) -> (r: Scalar)
        ensures
            r == self.negated(),
            r.magnitude() == self.magnitude(),
            r.sign_negative() == !self.sign_negative(),
            r.key() == -self.key(),
            r.nan() == self.nan(),
    {
        if self.bits >= SIGN_BIT {
            Scalar { bits: self.bits - SIGN_BIT }
        } else {
            Scalar { bits: self.bits + SIGN_BIT }
        }
    }

    /// Zero in place of a number below zero; anything else, a NaN too, as it is.
    pub fn clamp_negative(self) -> (r: Scalar)
        ensures
            r == self.raised_to_zero(),
    {
        if self.lt(Scalar { bits: 0 }) {
            Scalar { bits: 0 }
        } else {
            self
        }
    }

    /// The number brought into the range from 0 to 1: 0 for a NaN and for
    /// what is not above zero, 1 for what is not below one.
    pub fn clamp_unit(self) -> (r: Scalar)
        ensures
            r == self.within_unit(),
            !r.nan(),
            0 <= r.key() <= ONE_BITS,
    {
        if !(Scalar { bits: 0 }).lt(self) {
            Scalar { bits: 0 }
        } else if !self.lt(Scalar { bits: ONE_BITS }) {
            Scalar { bits: ONE_BITS }
        } else {
            self
        }
    }

    /// The number as a `u32`: rounded toward zero, saturating at both ends,
    /// 0 for a NaN.
    pub fn truncate(self) -> (r: u32)
        ensures
            r == self.truncated(),
    {
        let magnitude: u32 = self.abs_bits();
        if magnitude > INFINITY_BITS || self.bits >= SIGN_BIT {
            return 0;
        }
        if magnitude == INFINITY_BITS {
            return u32::MAX;
        }
        let exponent: u32 = magnitude / HIDDEN_BIT;
        let fraction: u32 = magnitude % HIDDEN_BIT;
        let significand: u32 = if exponent == 0 {
            fraction
        } else {
            fraction + HIDDEN_BIT
        };
        assert(exponent < 255);
        if exponent >= 159 {
            proof {
                lemma_whole_large(self);
            }
            u32::MAX
        } else if exponent >= 150 {
            let factor: u32 = power_of_two(exponent - 150);
            proof {
                lemma_pow2_bounds();
                if exponent < 158 {
                    lemma_pow2_strictly_increases((exponent - 150) as nat, 8);
                }
                assert(significand * factor < 0x1_0000_0000) by (nonlinear_arith)
                    requires
                        0 <= significand < 0x100_0000,
                        0 < factor <= 0x100,
                ;
            }
            significand * factor
        } else if exponent <= 126 {
            proof {
                lemma_whole_small(self);
            }
            0
        } else {
            let divisor: u32 = power_of_two(150 - exponent);
            significand / divisor
        }
    }

    /// The number as a `u8`: rounded toward zero, saturating at both ends,
    /// 0 for a NaN.
    pub fn truncate_u8(self) -> (r: u8)
        ensures
            r == self.channel(),
    {
        let wide: u32 = self.truncate();
        if wide > 255 {
            255
        } else {
            wide as u8
        }
    }
}

/// Two to the given power.
fn power_of_two(n: u32) -> (r: u32)
    requires
        n < 32,
    ensures
        r == pow2(n as nat),
        r > 0,
{
    let mut r: u32 = 1;
    let mut i: u32 = 0;
    proof {
        lemma2_to64();
    }
    while i < n
        invariant
            i <= n < 32,
            r == pow2(i as nat),
            r > 0,
        decreases n - i,
    {
        proof {
            lemma_pow2_unfold((i + 1) as nat);
            lemma_pow2_strictly_increases((i + 1) as nat, 32);
            lemma2_to64();
        }
        r = r * 2;
        i = i + 1;
    }
    r
}

/// The powers of two that the conversion to integers meets.
proof fn lemma_pow2_bounds()
    ensures
        pow2(0) == 1,
        pow2(8) == 0x100,
        pow2(9) == 0x200,
        pow2(24) == 0x100_0000,
        pow2(32) == 0x1_0000_0000,
{
    lemma2_to64();
}

/// With an exponent field of 159 or more the integer part exceeds a `u32`.
proof fn lemma_whole_large(x: Scalar)
    requires
        x.exponent() >= 159,
    ensures
        x.whole() > u32::MAX,
{
    let shift = (x.exponent() - 150) as nat;
    lemma_pow2_bounds();
    if shift > 9 {
        lemma_pow2_strictly_increases(9, shift);
    }
    let factor = pow2(shift) as int;
    let significand = x.significand();
    assert(significand >= 0x80_0000);
    assert(significand * factor >= 0x80_0000 * 0x200) by (nonlinear_arith)
        requires
            significand >= 0x80_0000,
            factor >= 0x200,
    ;
}

/// With an exponent field of 126 or less the number lies below one.
proof fn lemma_whole_small(x: Scalar)
    requires
        x.exponent() <= 126,
    ensures
        x.whole() == 0,
{
    let shift = (150 - x.exponent()) as nat;
    lemma_pow2_bounds();
    if shift > 24 {
        lemma_pow2_strictly_increases(24, shift);
    }
    let divisor = pow2(shift) as int;
    let significand = x.significand();
    assert(0 <= significand < 0x100_0000);
    assert(significand / divisor == 0) by (nonlinear_arith)
        requires
            0 <= significand < 0x100_0000,
            divisor >= 0x100_0000,
    ;
}

/// No number is below itself, and of two numbers at most one is below the
/// other.
pub proof fn lemma_below_is_strict(a: Scalar, b: Scalar)
    ensures
        !a.below(a),
        !(a.below(b) && b.below(a)),
{
}

/// `below` is transitive.
pub proof fn lemma_below_is_transitive(a: Scalar, b: Scalar, c: Scalar)
    requires
        a.below(b),
        b.below(c),
    ensures
        a.below(c),
{
}

/// Two numbers, neither of them a NaN, are comparable: one is below the other
/// or the two are the same number.
pub proof fn lemma_numbers_are_comparable(a: Scalar, b: Scalar)
    requires
        !a.nan(),
        !b.nan(),
    ensures
        a.below(b) || b.below(a) || a.same(b),
        a.at_most(b) <==> !b.below(a),
{
}

} // verus!
