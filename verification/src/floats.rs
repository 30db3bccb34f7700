//! Declared floating-point values, held as IEEE 754 bit patterns.
//!
//! The crate never computes with floats: metadata only declares values
//! (scale factors, translation offsets), and validation merely classifies
//! them. Holding the 64-bit pattern keeps every value representable,
//! including NaN, and makes equality exact.

use vstd::prelude::*;

verus! {

/// An IEEE 754 double-precision value, as its bit pattern.
#[derive(Debug, Clone, Copy, PartialEq, Eq, Structural)]
pub struct Float64 {
    /// The 64 bits of the value, sign bit highest.
    pub bits: u64,
}

/// The sign bit of the pattern.
pub open spec fn f64_sign(bits: u64) -> u64 {
    bits >> 63
}

/// The 11 exponent bits of the pattern.
pub open spec fn f64_exp(bits: u64) -> u64 {
    (bits >> 52) & 0x7ff
}

/// The 52 fraction bits of the pattern.
pub open spec fn f64_frac(bits: u64) -> u64 {
    bits & 0xf_ffff_ffff_ffff
}

/// Whether the pattern is a NaN: exponent all ones, fraction non-zero.
pub open spec fn f64_is_nan(bits: u64) -> bool {
    f64_exp(bits) == 0x7ff && f64_frac(bits) != 0
}

/// Whether the pattern is an infinity: exponent all ones, fraction zero.
pub open spec fn f64_is_infinite(bits: u64) -> bool {
    f64_exp(bits) == 0x7ff && f64_frac(bits) == 0
}

/// Whether the pattern is a zero of either sign.
pub open spec fn f64_is_zero(bits: u64) -> bool {
    f64_exp(bits) == 0 && f64_frac(bits) == 0
}

/// Whether the value compares strictly below zero.
pub open spec fn f64_lt_zero(bits: u64) -> bool {
    f64_sign(bits) == 1 && !f64_is_nan(bits) && !f64_is_zero(bits)
}

/// Whether the value compares strictly above zero.
pub open spec fn f64_gt_zero(bits: u64) -> bool {
    f64_sign(bits) == 0 && !f64_is_nan(bits) && !f64_is_zero(bits)
}

/// Whether `a` compares strictly below `b` under IEEE 754 ordering:
/// false whenever either is NaN or both are zeros; otherwise by sign,
/// then by magnitude.
pub open spec fn f64_lt(a: u64, b: u64) -> bool {
    if f64_is_nan(a) || f64_is_nan(b) {
        false
    } else if f64_is_zero(a) && f64_is_zero(b) {
        false
    } else if f64_sign(a) == 1 && f64_sign(b) == 0 {
        true
    } else if f64_sign(a) == 0 && f64_sign(b) == 1 {
        false
    } else if f64_sign(a) == 0 {
        (a & 0x7fff_ffff_ffff_ffff) < (b & 0x7fff_ffff_ffff_ffff)
    } else {
        (a & 0x7fff_ffff_ffff_ffff) > (b & 0x7fff_ffff_ffff_ffff)
    }
}

impl Float64 {
    /// Whether this value compares strictly below the other.
    pub fn lt(&self, other: &Float64) -> (r: bool)
        ensures
            r == f64_lt(self.bits, other.bits),
    {
        let a = self.bits;
        let b = other.bits;
        if self.is_nan() || other.is_nan() {
            false
        } else if (a >> 52) & 0x7ff == 0 && a & 0xf_ffff_ffff_ffff == 0 && (b >> 52) & 0x7ff == 0
            && b & 0xf_ffff_ffff_ffff == 0 {
            false
        } else if a >> 63 == 1 && b >> 63 == 0 {
            true
        } else if a >> 63 == 0 && b >> 63 == 1 {
            false
        } else if a >> 63 == 0 {
            (a & 0x7fff_ffff_ffff_ffff) < (b & 0x7fff_ffff_ffff_ffff)
        } else {
            (a & 0x7fff_ffff_ffff_ffff) > (b & 0x7fff_ffff_ffff_ffff)
        }
    }

    /// Wrap a bit pattern.
    pub fn from_bits(bits: u64) -> (r: Float64)
        ensures
            r.bits == bits,
    {
        Float64 { bits }
    }

    /// Whether the value is a NaN.
    pub fn is_nan(&self) -> (r: bool)
        ensures
            r == f64_is_nan(self.bits),
    {
        (self.bits >> 52) & 0x7ff == 0x7ff && self.bits & 0xf_ffff_ffff_ffff != 0
    }

    /// Whether the value is positive or negative infinity.
    pub fn is_infinite(&self) -> (r: bool)
        ensures
            r == f64_is_infinite(self.bits),
    {
        (self.bits >> 52) & 0x7ff == 0x7ff && self.bits & 0xf_ffff_ffff_ffff == 0
    }

    /// Whether the value is strictly below zero. NaN and the zeros of
    /// either sign are not.
    pub fn lt_zero(&self) -> (r: bool)
        ensures
            r == f64_lt_zero(self.bits),
    {
        self.bits >> 63 == 1 && !self.is_nan() && !((self.bits >> 52) & 0x7ff == 0
            && self.bits & 0xf_ffff_ffff_ffff == 0)
    }

    /// Whether the value is strictly above zero. NaN and the zeros of
    /// either sign are not.
    pub fn gt_zero(&self) -> (r: bool)
        ensures
            r == f64_gt_zero(self.bits),
    {
        self.bits >> 63 == 0 && !self.is_nan() && !((self.bits >> 52) & 0x7ff == 0
            && self.bits & 0xf_ffff_ffff_ffff == 0)
    }
}

/// The power of two at `e`.
pub open spec fn pow2(e: nat) -> nat
    decreases e,
{
    if e == 0 {
        1
    } else {
        2 * pow2((e - 1) as nat)
    }
}

/// The position of the highest set bit: the largest `p` with `2^p <= u`.
pub open spec fn floor_log2(u: nat) -> nat
    decreases u,
{
    if u <= 1 {
        0
    } else {
        1 + floor_log2(u / 2)
    }
}

/// The bit pattern of the IEEE 754 double holding the non-negative
/// integer `u` exactly; defined for integers below 2^53, which the
/// format represents without rounding.
pub open spec fn f64_bits_of_uint(u: nat) -> u64 {
    if u == 0 {
        0u64
    } else {
        (((1023 + floor_log2(u)) * pow2(52) + (u * pow2((52 - floor_log2(u)) as nat) - pow2(
            52,
        ))) as u64)
    }
}

/// The bit pattern of the IEEE 754 double holding the negative integer
/// `-m` exactly: the positive pattern with the sign bit set.
pub open spec fn f64_bits_of_neg_uint(m: nat) -> u64 {
    (f64_bits_of_uint(m) + 0x8000_0000_0000_0000) as u64
}

proof fn lemma_pow2_monotone(a: nat, b: nat)
    requires
        a <= b,
    ensures
        pow2(a) <= pow2(b),
    decreases b,
{
    if a < b {
        lemma_pow2_monotone(a, (b - 1) as nat);
    }
}

proof fn lemma_pow2_add(a: nat, b: nat)
    ensures
        pow2(a) * pow2(b) == pow2(a + b),
    decreases a,
{
    if a == 0 {
        assert(pow2(0) == 1);
        assert(pow2(a) * pow2(b) == 1 * pow2(b));
        assert(1 * pow2(b) == pow2(b)) by (nonlinear_arith);
    } else {
        lemma_pow2_add((a - 1) as nat, b);
        assert(pow2(a) * pow2(b) == 2 * (pow2((a - 1) as nat) * pow2(b))) by (nonlinear_arith)
            requires
                pow2(a) == 2 * pow2((a - 1) as nat),
        ;
        assert(2 * (pow2((a - 1) as nat) * pow2(b)) == 2 * pow2((a - 1) as nat + b));
        assert((a - 1) as nat + b == (a + b - 1) as nat);
        assert(pow2(a + b) == 2 * pow2((a + b - 1) as nat));
    }
}

proof fn lemma_pow2_values()
    ensures
        pow2(52) == 0x10_0000_0000_0000,
        pow2(53) == 0x20_0000_0000_0000,
{
    reveal_with_fuel(pow2, 54);
}

proof fn lemma_floor_log2_bounds(u: nat)
    requires
        u >= 1,
    ensures
        pow2(floor_log2(u)) <= u < pow2(floor_log2(u) + 1),
    decreases u,
{
    if u > 1 {
        lemma_floor_log2_bounds(u / 2);
    }
}

/// A number below 2^53 has its highest set bit at position 52 or lower.
proof fn lemma_log_below_53(u: nat)
    requires
        1 <= u < 0x20_0000_0000_0000,
    ensures
        floor_log2(u) <= 52,
{
    lemma_floor_log2_bounds(u);
    lemma_pow2_values();
    if floor_log2(u) >= 53 {
        lemma_pow2_monotone(53, floor_log2(u));
    }
}

/// Scaling a number up to the mantissa range lands it there.
proof fn lemma_scale_range(u: nat, p: nat)
    requires
        pow2(p) <= u < pow2(p + 1),
        p <= 52,
    ensures
        pow2(52) <= u * pow2((52 - p) as nat) < pow2(53),
{
    let q = pow2((52 - p) as nat);
    lemma_pow2_add(p, (52 - p) as nat);
    lemma_pow2_add(p + 1, (52 - p) as nat);
    lemma_pow2_monotone(0, (52 - p) as nat);
    assert(q >= 1);
    assert(pow2(p) * q <= u * q && u * q < pow2(p + 1) * q) by (nonlinear_arith)
        requires
            pow2(p) <= u < pow2(p + 1) && q >= 1,
    ;
}

/// Turn a non-negative integer below 2^53 into the bit pattern of the
/// IEEE 754 double holding it exactly.
pub fn f64_bits_from_u64(u: u64) -> (r: Float64)
    requires
        u < 0x20_0000_0000_0000,
    ensures
        r.bits == f64_bits_of_uint(u as nat),
{
    if u == 0 {
        return Float64 { bits: 0 };
    }
    let mut p: u64 = 0;
    let mut m: u64 = u;
    while m > 1
        invariant
            m >= 1,
            1 <= u < 0x20_0000_0000_0000,
            floor_log2(u as nat) == p + floor_log2(m as nat),
            p <= 63,
        decreases m,
    {
        proof {
            assert(m / 2 >= 1);
            if p + 1 > 63 {
                lemma_log_below_53(u as nat);
                assert(floor_log2(u as nat) <= 52);
                assert(false);
            }
        }
        m = m / 2;
        p = p + 1;
    }
    proof {
        assert(floor_log2(u as nat) == p);
        lemma_floor_log2_bounds(u as nat);
        lemma_log_below_53(u as nat);
        lemma_scale_range(u as nat, p as nat);
        lemma_pow2_values();
    }
    let exp: u64 = 1023 + p;
    let shifted: u64 = shift_for_mantissa(u, 52 - p);
    proof {
        assert(exp * 0x10_0000_0000_0000 <= 1075 * 0x10_0000_0000_0000) by (nonlinear_arith)
            requires
                exp <= 1075,
        ;
        assert(shifted < 0x20_0000_0000_0000);
    }
    let r = Float64 { bits: exp * 0x10_0000_0000_0000u64 + (shifted - 0x10_0000_0000_0000u64) };
    proof {
        lemma_pow2_values();
        assert(r.bits == f64_bits_of_uint(u as nat));
    }
    r
}

/// Multiply by the power of two, staying within the mantissa range.
fn shift_for_mantissa(u: u64, sh: u64) -> (r: u64)
    requires
        sh <= 52,
        u as nat * pow2(sh as nat) < pow2(53),
    ensures
        r as nat == u as nat * pow2(sh as nat),
        r < 0x20_0000_0000_0000,
{
    proof {
        lemma_pow2_values();
    }
    let mut r: u64 = u;
    let mut k: u64 = 0;
    while k < sh
        invariant
            k <= sh <= 52,
            r as nat * pow2((sh - k) as nat) == u as nat * pow2(sh as nat),
            u as nat * pow2(sh as nat) < pow2(53),
        decreases sh - k,
    {
        proof {
            assert(pow2((sh - k) as nat) == 2 * pow2((sh - k - 1) as nat));
            assert(r as nat * 2 * pow2((sh - k - 1) as nat) == u as nat * pow2(sh as nat))
                by (nonlinear_arith)
                requires
                    r as nat * pow2((sh - k) as nat) == u as nat * pow2(sh as nat) && pow2(
                        (sh - k) as nat,
                    ) == 2 * pow2((sh - k - 1) as nat),
            ;
            assert(pow2((sh - k - 1) as nat) >= 1) by {
                lemma_pow2_monotone(0, (sh - k - 1) as nat);
            }
            assert(r as nat * 2 <= r as nat * 2 * pow2((sh - k - 1) as nat)) by (nonlinear_arith)
                requires
                    pow2((sh - k - 1) as nat) >= 1,
            ;
            lemma_pow2_values();
        }
        r = r * 2;
        k = k + 1;
    }
    proof {
        assert((sh - sh) as nat == 0);
        assert(pow2(0) == 1);
        assert(r as nat * pow2(0) == u as nat * pow2(sh as nat));
        assert(r as nat * 1 == r as nat) by (nonlinear_arith);
        lemma_pow2_values();
    }
    r
}

/// Turn a negative integer whose magnitude lies below 2^53 into the bit
/// pattern of the IEEE 754 double holding it exactly.
pub fn f64_bits_from_neg(m: u64) -> (r: Float64)
    requires
        0 < m < 0x20_0000_0000_0000,
    ensures
        r.bits == f64_bits_of_neg_uint(m as nat),
{
    let pos = f64_bits_from_u64(m);
    proof {
        lemma_floor_log2_bounds(m as nat);
        lemma_log_below_53(m as nat);
        lemma_scale_range(m as nat, floor_log2(m as nat));
        lemma_pow2_values();
        assert((1023 + floor_log2(m as nat)) * pow2(52) <= 1075 * 0x10_0000_0000_0000);
        assert(pos.bits < 0x8000_0000_0000_0000);
    }
    Float64 { bits: pos.bits + 0x8000_0000_0000_0000 }
}

} // verus!
