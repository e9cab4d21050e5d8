//! Depth biases.

use super::color::{f32_exponent, f32_fraction};
use vstd::arithmetic::power2::{
    lemma2_to64, lemma_pow2_adds, lemma_pow2_pos, lemma_pow2_strictly_increases,
    lemma_pow2_unfold, pow2,
};
use vstd::prelude::*;

verus! {

/// The sign bit of a float.
pub open spec fn sign_of(bits: u32) -> u32 {
    bits / 0x8000_0000
}

/// Whether a float is not a number.
pub open spec fn is_nan(bits: u32) -> bool {
    f32_exponent(bits) == 0xff && f32_fraction(bits) != 0
}

/// Whether a float is infinite.
pub open spec fn is_infinite(bits: u32) -> bool {
    f32_exponent(bits) == 0xff && f32_fraction(bits) == 0
}

/// The magnitude of a finite float, counted in the least float above zero.
pub open spec fn magnitude(bits: u32) -> nat {
    if f32_exponent(bits) == 0 {
        f32_fraction(bits) as nat
    } else {
        (f32_fraction(bits) + 0x80_0000) as nat * pow2((f32_exponent(bits) - 1) as nat)
    }
}

/// The magnitude from which on there are no finite floats.
pub open spec fn beyond() -> nat {
    0x100_0000 * pow2(253)
}

/// A fraction shifted up until it has its leading bit, and how far it was shifted.
fn normalize(m: u32) -> (r: (u32, u32))
    requires
        0 < m < 0x80_0000,
    ensures
        0x80_0000 <= r.0 < 0x100_0000,
        1 <= r.1 <= 23,
        r.0 == m * pow2(r.1 as nat),
{
    let mut x: u32 = m;
    let mut shift: u32 = 0;
    proof {
        lemma2_to64();
        assert(m * pow2(0) == m);
    }
    while x < 0x80_0000
        invariant
            0 < m < 0x80_0000,
            0 < x < 0x100_0000,
            x == m * pow2(shift as nat),
            shift > 0 || x < 0x80_0000,
            shift <= 23,
            pow2(shift as nat) <= x,
            x < 0x80_0000 ==> shift < 23,
        decreases 0x100_0000 - x,
    {
        proof {
            lemma_pow2_unfold((shift + 1) as nat);
            lemma2_to64();
            let p = pow2(shift as nat) as int;
            assert(m * (2 * p) == 2 * (m * p)) by (nonlinear_arith);
            if shift == 22 {
                assert(2 * x >= pow2(23));
            }
            if shift > 22 {
                assert(false);
            }
        }
        x = 2 * x;
        shift += 1;
    }
    (x, shift)
}

/// The float with a sign, an exponent and a fraction.
fn float(sign: u32, exponent: u32, fraction: u32) -> (r: u32)
    requires
        sign <= 1,
        exponent <= 0xff,
        fraction < 0x80_0000,
    ensures
        sign_of(r) == sign,
        f32_exponent(r) == exponent,
        f32_fraction(r) == fraction,
{
    let r: u32 = sign * 0x8000_0000 + exponent * 0x80_0000 + fraction;
    assert(r / 0x80_0000 == sign * 0x100 + exponent);
    r
}

/// Scales a depth bias to the smallest step of a depth buffer with single-precision
/// floats, that is by two to the power of 23. A result that is too large is infinite.
pub fn d3d_depth_bias_to_metal(raw_d3d: u32) -> (r: u32)
    ensures
        sign_of(r) == sign_of(raw_d3d),
        is_nan(r) == is_nan(raw_d3d),
        is_infinite(r) == (is_infinite(raw_d3d) || (f32_exponent(raw_d3d) != 0xff && magnitude(
            raw_d3d,
        ) * 0x80_0000 >= beyond())),
        f32_exponent(r) != 0xff ==> magnitude(r) == magnitude(raw_d3d) * 0x80_0000,
        raw_d3d % 0x8000_0000 == 0 ==> r == raw_d3d,
        1 <= f32_exponent(raw_d3d) < 232 ==> f32_exponent(r) == f32_exponent(raw_d3d) + 23
            && f32_fraction(r) == f32_fraction(raw_d3d),
{
    let sign: u32 = raw_d3d / 0x8000_0000;
    let exponent: u32 = raw_d3d / 0x80_0000 % 0x100;
    let fraction: u32 = raw_d3d % 0x80_0000;
    if exponent == 0xff {
        return raw_d3d;
    }
    if exponent == 0 {
        proof {
            small_magnitudes_are_in_reach(fraction);
        }
        if fraction == 0 {
            return raw_d3d;
        }
        let (x, shift) = normalize(fraction);
        let r: u32 = float(sign, 24 - shift, x - 0x80_0000);
        proof {
            let p = pow2(shift as nat) as int;
            let q = pow2((23 - shift) as nat) as int;
            lemma_pow2_adds(shift as nat, (23 - shift) as nat);
            lemma2_to64();
            assert(p * q == 0x80_0000);
            assert((fraction * p) * q == fraction * (p * q)) by (nonlinear_arith);
        }
        return r;
    }
    let ghost f = (fraction + 0x80_0000) as int;
    proof {
        let p = pow2((exponent - 1) as nat) as int;
        lemma_pow2_adds((exponent - 1) as nat, 23);
        lemma2_to64();
        assert(f * (p * 0x80_0000) == f * p * 0x80_0000) by (nonlinear_arith);
        assert(magnitude(raw_d3d) * 0x80_0000 == f * pow2((exponent + 22) as nat));
        scaled_magnitudes_are_in_reach(f, (exponent + 22) as nat);
    }
    if exponent >= 232 {
        return float(sign, 0xff, 0);
    }
    float(sign, exponent + 23, fraction)
}

proof fn small_magnitudes_are_in_reach(fraction: u32)
    requires
        fraction < 0x80_0000,
    ensures
        fraction * 0x80_0000 < beyond(),
{
    lemma_pow2_adds(64, 189);
    lemma_pow2_pos(189);
    lemma2_to64();
    let p = pow2(64) as int;
    let q = pow2(189) as int;
    assert(p == 0x1_0000_0000_0000_0000);
    assert(p * q >= p) by (nonlinear_arith)
        requires
            q >= 1,
            p >= 0,
    ;
}

proof fn scaled_magnitudes_are_in_reach(f: int, e: nat)
    requires
        0x80_0000 <= f < 0x100_0000,
    ensures
        (f * pow2(e) < beyond()) == (e <= 253),
{
    lemma_pow2_pos(e);
    lemma_pow2_unfold(254);
    if e < 253 {
        lemma_pow2_strictly_increases(e, 253);
    }
    if e > 254 {
        lemma_pow2_strictly_increases(254, e);
    }
    let p = pow2(e) as int;
    let q = pow2(253) as int;
    if e <= 253 {
        assert(f * p < 0x100_0000 * q) by (nonlinear_arith)
            requires
                0 <= f < 0x100_0000,
                0 < p <= q,
        ;
    } else {
        assert(f * p >= 0x100_0000 * q) by (nonlinear_arith)
            requires
                0x80_0000 <= f,
                p >= 2 * q,
                q >= 0,
        ;
    }
}

/// Finite floats of one sign and magnitude are the same.
pub proof fn magnitudes_tell_floats_apart(a: u32, b: u32)
    requires
        f32_exponent(a) != 0xff,
        f32_exponent(b) != 0xff,
        sign_of(a) == sign_of(b),
        magnitude(a) == magnitude(b),
    ensures
        a == b,
{
    if f32_exponent(a) < f32_exponent(b) {
        larger_exponents_are_larger(a, b);
    } else if f32_exponent(b) < f32_exponent(a) {
        larger_exponents_are_larger(b, a);
    } else if f32_exponent(a) > 0 {
        let p = pow2((f32_exponent(a) - 1) as nat) as int;
        lemma_pow2_pos((f32_exponent(a) - 1) as nat);
        let x = f32_fraction(a) + 0x80_0000;
        let y = f32_fraction(b) + 0x80_0000;
        assert(x == y) by (nonlinear_arith)
            requires
                x * p == y * p,
                p > 0,
        ;
    }
    assert(a == sign_of(a) * 0x8000_0000 + f32_exponent(a) * 0x80_0000 + f32_fraction(a));
    assert(b == sign_of(b) * 0x8000_0000 + f32_exponent(b) * 0x80_0000 + f32_fraction(b));
}

proof fn larger_exponents_are_larger(a: u32, b: u32)
    requires
        f32_exponent(a) < f32_exponent(b) < 0xff,
    ensures
        magnitude(a) < magnitude(b),
{
    let e = f32_exponent(b) - 1;
    lemma_pow2_pos(e as nat);
    let q = pow2(e as nat) as int;
    let y = f32_fraction(b) + 0x80_0000;
    if f32_exponent(a) == 0 {
        assert(y * q >= 0x80_0000) by (nonlinear_arith)
            requires
                y >= 0x80_0000,
                q >= 1,
        ;
    } else {
        let d = f32_exponent(a) - 1;
        let p = pow2(d as nat) as int;
        lemma_pow2_pos(d as nat);
        lemma_pow2_unfold((d + 1) as nat);
        if d + 1 < e {
            lemma_pow2_strictly_increases((d + 1) as nat, e as nat);
        }
        let x = f32_fraction(a) + 0x80_0000;
        assert(x * p < y * q) by (nonlinear_arith)
            requires
                0 < x < 0x100_0000,
                y >= 0x80_0000,
                p > 0,
                q >= 2 * p,
        ;
    }
}

} // verus!
