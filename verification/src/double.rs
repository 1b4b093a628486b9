//! Double-precision numbers, carried by their bit pattern.
//!
//! The library never rounds: it stores, classifies and compares. A number is
//! therefore kept as the 64 bits of its IEEE 754 binary64 encoding, and what
//! the bits mean is stated over the integers. Every finite double is a whole
//! multiple of 2^-1074, so its exact value is the integer [`Double::scaled`]
//! counted in that unit.

use vstd::arithmetic::power2::{lemma2_to64, lemma2_to64_rest, lemma_pow2_adds, lemma_pow2_pos, lemma_pow2_strictly_increases, pow2};
use vstd::prelude::*;

verus! {

/// The sign bit of the encoding.
pub const SIGN_BIT: u64 = 0x8000_0000_0000_0000;

/// The encoding of positive infinity: every exponent bit set, no fraction bit.
pub const INFINITY_BITS: u64 = 0x7ff0_0000_0000_0000;

/// Two to the power 52: the weight of the implicit leading bit of a normal number.
pub const HIDDEN_BIT: u64 = 0x0010_0000_0000_0000;

/// The encoding of `0`.
pub const ZERO_BITS: u64 = 0;

/// The encoding of `-1`.
pub const MINUS_ONE_BITS: u64 = 0xbff0_0000_0000_0000;

/// The encoding of `90`.
pub const RIGHT_ANGLE_BITS: u64 = 0x4056_8000_0000_0000;

/// The encoding of `180`.
pub const STRAIGHT_ANGLE_BITS: u64 = 0x4066_8000_0000_0000;

/// A double-precision number, held as the bits of its encoding.
///
/// Two values are `==` when their bits are, which is finer than the numeric
/// comparison: `0` and `-0` differ, and a NaN equals itself.
#[derive(Clone, Copy, Debug, PartialEq, Eq, Structural)]
pub struct Double {
    pub bits: u64,
}

/// The number with the given encoding.
pub open spec fn of_bits(bits: u64) -> Double {
    Double { bits }
}

/// The exact size of one, counted in the unit 2^-1074 in which [`Double::scaled`] counts.
pub open spec fn unit() -> int {
    pow2(1074) as int
}

/// The size of a number without sign, from the 63 low bits of its encoding,
/// counted in units of 2^-1074.
///
/// The bits split into an exponent field `e` (the high 11) and a fraction `f`
/// (the low 52). With `e == 0` the number is subnormal and worth `f` units;
/// otherwise it is worth `(2^52 + f) * 2^(e - 1)` units.
pub open spec fn weight(magnitude: nat) -> nat {
    let e = magnitude / (HIDDEN_BIT as nat);
    let f = magnitude % (HIDDEN_BIT as nat);
    if e == 0 {
        f
    } else {
        (HIDDEN_BIT as nat + f) * pow2((e - 1) as nat)
    }
}

impl Double {
    /// Whether the sign bit is set.
    pub open spec fn sign(self) -> bool {
        self.bits >= SIGN_BIT
    }

    /// The encoding with the sign bit cleared.
    pub open spec fn magnitude(self) -> nat {
        if self.bits >= SIGN_BIT {
            (self.bits - SIGN_BIT) as nat
        } else {
            self.bits as nat
        }
    }

    /// Not a number: all exponent bits set and some fraction bit set.
    pub open spec fn nan(self) -> bool {
        self.magnitude() > INFINITY_BITS
    }

    /// Neither infinite nor NaN.
    pub open spec fn finite(self) -> bool {
        self.magnitude() < INFINITY_BITS
    }

    /// The value in units of 2^-1074. It is exact for a finite number; an
    /// infinity gets `2^2098` with its sign, beyond every finite number. It
    /// says nothing of a NaN.
    pub open spec fn scaled(self) -> int {
        if self.sign() {
            -(weight(self.magnitude()) as int)
        } else {
            weight(self.magnitude()) as int
        }
    }

    /// The number with the given encoding.
    pub fn from_bits(bits: u64) -> (r: Double)
        ensures
            r == of_bits(bits),
    {
        Double { bits }
    }

    /// The encoding of the number.
    pub fn to_bits(self) -> (r: u64)
        ensures
            r == self.bits,
    {
        self.bits
    }

    /// The number `0`.
    pub fn zero() -> (r: Double)
        ensures
            r == of_bits(ZERO_BITS),
    {
        Double { bits: ZERO_BITS }
    }

    /// The number `-1`.
    pub fn minus_one() -> (r: Double)
        ensures
            r == of_bits(MINUS_ONE_BITS),
    {
        Double { bits: MINUS_ONE_BITS }
    }

    /// The number `90`.
    pub fn right_angle() -> (r: Double)
        ensures
            r == of_bits(RIGHT_ANGLE_BITS),
    {
        Double { bits: RIGHT_ANGLE_BITS }
    }

    /// The number `180`.
    pub fn straight_angle() -> (r: Double)
        ensures
            r == of_bits(STRAIGHT_ANGLE_BITS),
    {
        Double { bits: STRAIGHT_ANGLE_BITS }
    }

    /// Whether the number is a NaN.
    pub fn is_nan(self) -> (r: bool)
        ensures
            r == self.nan(),
    {
        if self.bits >= SIGN_BIT {
            self.bits - SIGN_BIT > INFINITY_BITS
        } else {
            self.bits > INFINITY_BITS
        }
    }

    /// Whether the number is neither infinite nor a NaN.
    pub fn is_finite(self) -> (r: bool)
        ensures
            r == self.finite(),
    {
        if self.bits >= SIGN_BIT {
            self.bits - SIGN_BIT < INFINITY_BITS
        } else {
            self.bits < INFINITY_BITS
        }
    }

    /// Numeric `<`, as IEEE 754 orders doubles: false as soon as one side is
    /// a NaN, and `-0` is not below `0`.
    pub fn lt(self, other: Double) -> (r: bool)
        ensures
            r == (!self.nan() && !other.nan() && self.scaled() < other.scaled()),
    {
        if self.is_nan() || other.is_nan() {
            return false;
        }
        proof {
            lemma_weight_increases_all();
        }
        if self.bits < SIGN_BIT {
            other.bits < SIGN_BIT && self.bits < other.bits
        } else if other.bits < SIGN_BIT {
            self.bits > SIGN_BIT || other.bits > 0
        } else {
            other.bits < self.bits
        }
    }
}

/// Within one exponent the weight grows with the fraction, and each exponent
/// starts where the one below ends: a larger magnitude weighs more.
pub proof fn lemma_weight_increases(m1: nat, m2: nat)
    requires
        m1 < m2,
    ensures
        weight(m1) < weight(m2),
{
    let h = HIDDEN_BIT as nat;
    let e1 = m1 / h;
    let f1 = m1 % h;
    let e2 = m2 / h;
    let f2 = m2 % h;
    assert(e1 <= e2 && (e1 == e2 ==> f1 < f2)) by {
        assert(m1 == h * e1 + f1 && m2 == h * e2 + f2 && f1 < h && f2 < h) by (nonlinear_arith)
            requires
                h > 0,
                e1 == m1 / h,
                f1 == m1 % h,
                e2 == m2 / h,
                f2 == m2 % h,
        ;
        assert(e1 <= e2) by (nonlinear_arith)
            requires
                m1 < m2,
                m1 == h * e1 + f1,
                m2 == h * e2 + f2,
                f1 < h,
                f2 < h,
                h > 0,
        ;
    }
    if e1 == e2 {
        if e1 != 0 {
            let p = pow2((e1 - 1) as nat);
            lemma_pow2_pos((e1 - 1) as nat);
            assert((h + f1) * p < (h + f2) * p) by (nonlinear_arith)
                requires
                    f1 < f2,
                    p > 0,
            ;
        }
    } else {
        // the weight of m1 stays below h * 2^e1, that of m2 is at least h * 2^(e2 - 1)
        let top = pow2(e1);
        let low = pow2((e2 - 1) as nat);
        lemma_pow2_pos(e1);
        lemma_pow2_pos((e2 - 1) as nat);
        assert(top <= low) by {
            if e1 < e2 - 1 {
                lemma_pow2_strictly_increases(e1, (e2 - 1) as nat);
            }
        }
        assert(weight(m1) < h * top) by {
            if e1 == 0 {
                lemma2_to64();
                assert(h * top == h) by (nonlinear_arith)
                    requires
                        top == 1,
                ;
            } else {
                let p = pow2((e1 - 1) as nat);
                lemma_pow2_pos((e1 - 1) as nat);
                lemma_pow2_adds(1, (e1 - 1) as nat);
                lemma2_to64();
                assert(top == 2 * p);
                assert((h + f1) * p < h * (2 * p)) by (nonlinear_arith)
                    requires
                        f1 < h,
                        p > 0,
                ;
            }
        }
        assert(h * top <= h * low) by (nonlinear_arith)
            requires
                top <= low,
        ;
        assert(h * low <= (h + f2) * low) by (nonlinear_arith)
            requires
                f2 >= 0,
                low > 0,
        ;
    }
}

/// The weight orders magnitudes exactly as the integers order them, and is
/// zero for the magnitude zero alone.
pub proof fn lemma_weight_increases_all()
    ensures
        forall|m1: nat, m2: nat| m1 < m2 ==> #[trigger] weight(m1) < #[trigger] weight(m2),
        forall|m: nat| m > 0 ==> #[trigger] weight(m) > 0,
        weight(0) == 0,
{
    assert forall|m1: nat, m2: nat| m1 < m2 implies #[trigger] weight(m1) < #[trigger] weight(
        m2,
    ) by {
        lemma_weight_increases(m1, m2);
    }
    assert forall|m: nat| m > 0 implies #[trigger] weight(m) > 0 by {
        lemma_weight_increases(0, m);
    }
}

/// A normal number is worth its significand times a power of two: with an
/// exponent field `e >= 1` and a fraction `f < 2^52`, the encoding
/// `e * 2^52 + f` weighs `(2^52 + f) * 2^(e - 1)`.
pub proof fn lemma_weight_of_normal(e: nat, f: nat)
    requires
        e >= 1,
        f < HIDDEN_BIT,
    ensures
        weight(e * (HIDDEN_BIT as nat) + f) == (HIDDEN_BIT as nat + f) * pow2((e - 1) as nat),
{
    let h = HIDDEN_BIT as nat;
    let m = e * h + f;
    assert(m / h == e && m % h == f) by (nonlinear_arith)
        requires
            m == e * h + f,
            f < h,
            h > 0,
    ;
}

/// The constants of this module encode the numbers they are named after:
/// `0`, `-1`, `90` and `180`, each exactly.
pub proof fn lemma_constants()
    ensures
        of_bits(ZERO_BITS).scaled() == 0,
        of_bits(MINUS_ONE_BITS).scaled() == -unit(),
        of_bits(RIGHT_ANGLE_BITS).scaled() == 90 * unit(),
        of_bits(STRAIGHT_ANGLE_BITS).scaled() == 180 * unit(),
        unit() > 0,
{
    let h = HIDDEN_BIT as nat;
    lemma2_to64();
    lemma2_to64_rest();
    lemma_pow2_pos(1074);
    // -1: exponent field 1023, fraction 0
    lemma_weight_of_normal(1023, 0);
    assert(MINUS_ONE_BITS - SIGN_BIT == 1023 * h + 0);
    lemma_pow2_adds(52, 1022);
    // 90 = 45 * 2^1: exponent field 1029, significand 45 * 2^47
    let f90: nat = 0x6_8000_0000_0000;
    lemma_weight_of_normal(1029, f90);
    assert(RIGHT_ANGLE_BITS == 1029 * h + f90);
    assert(h + f90 == 90 * pow2(46));
    lemma_pow2_adds(46, 1028);
    assert((90 * pow2(46)) * pow2(1028) == 90 * (pow2(46) * pow2(1028))) by (nonlinear_arith);
    // 180 = 90 * 2: exponent field 1030, same fraction
    lemma_weight_of_normal(1030, f90);
    assert(STRAIGHT_ANGLE_BITS == 1030 * h + f90);
    assert(h + f90 == 180 * pow2(45));
    lemma_pow2_adds(45, 1029);
    assert((180 * pow2(45)) * pow2(1029) == 180 * (pow2(45) * pow2(1029))) by (nonlinear_arith);
}

} // verus!
