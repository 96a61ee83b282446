//! Single-precision numbers carried by their IEEE 754 bit patterns.
//!
//! The flocking rule only ever asks of two numbers which one is the greater.
//! That question can be settled on the bit patterns alone, with integer
//! arithmetic, and this module does so: it gives every bit pattern its exact
//! numeric value as a mathematical integer, and proves that the comparisons
//! it runs agree with the order of those values.
use vstd::arithmetic::power2::{
    lemma2_to64, lemma_pow2_adds, lemma_pow2_pos, lemma_pow2_strictly_increases, lemma_pow2_unfold, pow2,
};
use vstd::prelude::*;

verus! {

/// The bit that holds the sign.
pub const SIGN_BIT: u32 = 0x8000_0000;

/// The magnitude of an infinity; every greater magnitude is a NaN.
pub const INFINITY_MAGNITUDE: u32 = 0x7f80_0000;

/// The weight of the lowest exponent bit, which is also the hidden leading
/// bit of a normal significand.
pub const HIDDEN_BIT: u32 = 0x0080_0000;

/// The number that a bit pattern encodes.
pub open spec fn encoded(bits: u32) -> Scalar {
    Scalar { bits }
}

/// A single-precision number, held as the 32 bits of its IEEE 754 encoding.
#[derive(Clone, Copy, Debug, PartialEq, Eq, Structural)]
pub struct Scalar {
    pub bits: u32,
}

impl Scalar {
    /// The encoding without its sign bit.
    pub open spec fn magnitude(self) -> int {
        if self.bits >= SIGN_BIT {
            self.bits - SIGN_BIT
        } else {
            self.bits as int
        }
    }

    /// Whether the sign bit is set (true of `-0.0` too).
    pub open spec fn is_negative(self) -> bool {
        self.bits >= SIGN_BIT
    }

    /// Whether the pattern encodes no number at all.
    pub open spec fn is_nan_spec(self) -> bool {
        self.magnitude() > INFINITY_MAGNITUDE
    }

    /// The eight exponent bits, as a number.
    pub open spec fn exponent_field(self) -> int {
        self.magnitude() / (HIDDEN_BIT as int)
    }

    /// The twenty-three fraction bits, as a number.
    pub open spec fn fraction(self) -> int {
        self.magnitude() % (HIDDEN_BIT as int)
    }

    /// The significand as an integer: the fraction bits, with the hidden
    /// leading bit on top unless the number is subnormal or zero.
    pub open spec fn significand(self) -> int {
        if self.exponent_field() == 0 {
            self.fraction()
        } else {
            HIDDEN_BIT + self.fraction()
        }
    }

    /// The power of two that one unit of the significand is worth, counted
    /// from the smallest one there is, `2^-149`: the absolute value encoded is
    /// `significand * 2^(binade - 149)`.
    pub open spec fn binade(self) -> nat {
        if self.exponent_field() == 0 {
            0
        } else {
            (self.exponent_field() - 1) as nat
        }
    }

    /// The absolute value encoded, in units of `2^-149`. In these units every
    /// finite single-precision number is an integer. An infinity is given the
    /// value one binade above the greatest finite number, so that it keeps its
    /// place in the order.
    pub open spec fn abs_value(self) -> int {
        self.significand() * pow2(self.binade())
    }

    /// The value encoded, in units of `2^-149`. Both zeros have the value 0.
    /// Meaningless for a NaN.
    pub open spec fn value(self) -> int {
        if self.is_negative() {
            -self.abs_value()
        } else {
            self.abs_value()
        }
    }

    /// The encoding read as a sign and a magnitude: an integer that can be
    /// computed at run time and, by `lemma_rank_orders_values`, is ordered as
    /// the values are.
    pub open spec fn rank(self) -> int {
        if self.is_negative() {
            -self.magnitude()
        } else {
            self.magnitude()
        }
    }

    /// `self < other` as IEEE 754 has it: false when either is a NaN.
    pub open spec fn lt_spec(self, other: Scalar) -> bool {
        !self.is_nan_spec() && !other.is_nan_spec() && self.value() < other.value()
    }

    /// `self > other` as IEEE 754 has it: false when either is a NaN.
    pub open spec fn gt_spec(self, other: Scalar) -> bool {
        other.lt_spec(self)
    }

    /// Whether the pattern encodes the whole number `n`, exactly.
    pub open spec fn is_whole(self, n: int) -> bool {
        !self.is_nan_spec() && self.value() == n * pow2(149)
    }

    /// Whether the number encoded lies within half a unit in its last place
    /// of the fraction `num / den`. This is what makes it the
    /// single-precision number that a decimal literal of that fraction
    /// denotes.
    pub open spec fn is_within_half_ulp_of(self, num: int, den: int) -> bool {
        &&& !self.is_nan_spec()
        &&& 0 < den
        &&& 2 * (den * self.value() - num * pow2(149)) <= den * pow2(self.binade())
        &&& 2 * (num * pow2(149) - den * self.value()) <= den * pow2(self.binade())
    }

    /// Wraps a bit pattern.
    pub fn from_bits(bits: u32) -> (s: Scalar)
        ensures
            s == encoded(bits),
    {
        Scalar { bits }
    }

    /// The bit pattern.
    pub fn to_bits(self) -> (bits: u32)
        ensures
            bits == self.bits,
    {
        self.bits
    }

    /// Whether the pattern encodes no number at all.
    pub fn is_nan(self) -> (r: bool)
        ensures
            r == self.is_nan_spec(),
    {
        let magnitude: u32 = if self.bits >= SIGN_BIT {
            self.bits - SIGN_BIT
        } else {
            self.bits
        };
        magnitude > INFINITY_MAGNITUDE
    }

    /// The sign-and-magnitude reading of the encoding.
    fn rank_of(self) -> (r: i64)
        ensures
            r == self.rank(),
    {
        if self.bits >= SIGN_BIT {
            -((self.bits - SIGN_BIT) as i64)
        } else {
            self.bits as i64
        }
    }

    /// `self < other`, decided on the bit patterns.
    pub fn lt(self, other: Scalar) -> (r: bool)
        ensures
            r == self.lt_spec(other),
    {
        if self.is_nan() || other.is_nan() {
            false
        } else {
            proof {
                lemma_rank_orders_values(self, other);
            }
            self.rank_of() < other.rank_of()
        }
    }

    /// `self > other`, decided on the bit patterns.
    pub fn gt(self, other: Scalar) -> (r: bool)
        ensures
            r == self.gt_spec(other),
    {
        other.lt(self)
    }
}

/// Within one sign, a greater magnitude encodes a greater absolute value.
proof fn lemma_abs_value_increases(a: Scalar, b: Scalar)
    requires
        !a.is_nan_spec(),
        !b.is_nan_spec(),
        a.magnitude() < b.magnitude(),
    ensures
        0 <= a.abs_value() < b.abs_value(),
{
    let h = HIDDEN_BIT as int;
    let (ea, fa) = (a.exponent_field(), a.fraction());
    let (eb, fb) = (b.exponent_field(), b.fraction());
    let (pa, pb) = (pow2(a.binade()) as int, pow2(b.binade()) as int);
    lemma2_to64();
    lemma_pow2_pos(a.binade());
    lemma_pow2_pos(b.binade());
    assert(a.magnitude() == h * ea + fa && b.magnitude() == h * eb + fb);
    assert(0 <= a.significand() * pa) by (nonlinear_arith)
        requires
            0 <= a.significand(),
            0 < pa,
    ;
    let (sa, sb) = (a.significand(), b.significand());
    if ea == eb {
        assert(sa * pa < sb * pa) by (nonlinear_arith)
            requires
                sa < sb,
                0 < pa,
        ;
    } else if ea == 0 {
        assert(sa * 1 < sb * pb) by (nonlinear_arith)
            requires
                0 <= sa < h <= sb,
                1 <= pb,
        ;
    } else {
        lemma_pow2_unfold(ea as nat);
        if ea < eb - 1 {
            lemma_pow2_strictly_increases(ea as nat, (eb - 1) as nat);
        }
        let next = pow2(ea as nat) as int;
        assert(sa * pa < h * next) by (nonlinear_arith)
            requires
                sa < 2 * h,
                0 < pa,
                next == 2 * pa,
        ;
        assert(h * next <= sb * pb) by (nonlinear_arith)
            requires
                0 < h <= sb,
                0 < next <= pb,
        ;
    }
}

/// Only the two zeros encode the value 0.
proof fn lemma_abs_value_zero(a: Scalar)
    requires
        !a.is_nan_spec(),
    ensures
        0 <= a.abs_value(),
        a.abs_value() == 0 <==> a.magnitude() == 0,
{
    let pa = pow2(a.binade()) as int;
    lemma_pow2_pos(a.binade());
    if a.magnitude() == 0 {
        assert(0 * pa == 0);
    } else {
        assert(0 < a.significand() * pa) by (nonlinear_arith)
            requires
                0 < a.significand(),
                0 < pa,
        ;
    }
}

/// The order of the bit patterns, read as sign and magnitude, is the order
/// of the numbers they encode: of two patterns that are not NaNs, one has
/// the smaller rank exactly when it has the smaller value, and they have
/// the same rank exactly when they have the same value.
pub proof fn lemma_rank_orders_values(a: Scalar, b: Scalar)
    requires
        !a.is_nan_spec(),
        !b.is_nan_spec(),
    ensures
        a.rank() < b.rank() <==> a.value() < b.value(),
        a.rank() == b.rank() <==> a.value() == b.value(),
{
    lemma_abs_value_zero(a);
    lemma_abs_value_zero(b);
    if a.magnitude() < b.magnitude() {
        lemma_abs_value_increases(a, b);
    } else if b.magnitude() < a.magnitude() {
        lemma_abs_value_increases(b, a);
    } else {
        assert(a.abs_value() == b.abs_value());
    }
}

/// A positive pattern whose significand is `n * 2^k`, with `k` units of
/// the significand to the whole, encodes the whole number `n`.
pub proof fn lemma_is_whole(s: Scalar, n: int, k: nat)
    requires
        !s.is_nan_spec(),
        !s.is_negative(),
        k + s.binade() == 149,
        s.significand() == n * pow2(k),
    ensures
        s.is_whole(n),
{
    lemma_pow2_adds(k, s.binade());
    let (pk, pb) = (pow2(k) as int, pow2(s.binade()) as int);
    assert((n * pk) * pb == n * (pk * pb)) by (nonlinear_arith);
}

/// A positive pattern whose significand, with `k` units of it to the
/// whole, differs from `num / den` by no more than half a unit, encodes a
/// number within half a unit in the last place of `num / den`.
pub proof fn lemma_is_within_half_ulp(s: Scalar, num: int, den: int, k: nat)
    requires
        !s.is_nan_spec(),
        !s.is_negative(),
        0 < den,
        k + s.binade() == 149,
        2 * (den * s.significand() - num * pow2(k)) <= den,
        2 * (num * pow2(k) - den * s.significand()) <= den,
    ensures
        s.is_within_half_ulp_of(num, den),
{
    lemma_pow2_adds(k, s.binade());
    lemma_pow2_pos(s.binade());
    let (pk, pb) = (pow2(k) as int, pow2(s.binade()) as int);
    let sig = s.significand();
    assert(2 * (den * (sig * pb) - num * (pk * pb)) <= den * pb) by (nonlinear_arith)
        requires
            2 * (den * sig - num * pk) <= den,
            0 < pb,
    ;
    assert(2 * (num * (pk * pb) - den * (sig * pb)) <= den * pb) by (nonlinear_arith)
        requires
            2 * (num * pk - den * sig) <= den,
            0 < pb,
    ;
}

} // verus!
