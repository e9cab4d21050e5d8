//! Colours: packed colours, floats as bits, and the bytes of a filled pixel.

use crate::d3d9::{
    D3DFMT_A16B16G16R16, D3DFMT_A16B16G16R16F, D3DFMT_A1R5G5B5, D3DFMT_A32B32G32R32F,
    D3DFMT_A4R4G4B4, D3DFMT_A8, D3DFMT_A8B8G8R8, D3DFMT_A8R8G8B8, D3DFMT_G16R16, D3DFMT_G16R16F,
    D3DFMT_G32R32F, D3DFMT_L8, D3DFMT_R16F, D3DFMT_R32F, D3DFMT_R5G6B5, D3DFMT_X1R5G5B5,
    D3DFMT_X8B8G8R8, D3DFMT_X8R8G8B8,
};
use vstd::arithmetic::power2::pow2;
use vstd::prelude::*;

verus! {

/// The blue byte of a colour, which lies lowest.
pub open spec fn blue(color: u32) -> u8 {
    (color % 0x100) as u8
}

/// The green byte of a colour.
pub open spec fn green(color: u32) -> u8 {
    (color / 0x100 % 0x100) as u8
}

/// The red byte of a colour.
pub open spec fn red(color: u32) -> u8 {
    (color / 0x1_0000 % 0x100) as u8
}

/// The alpha byte of a colour, which lies highest.
pub open spec fn alpha(color: u32) -> u8 {
    (color / 0x100_0000) as u8
}

struct Channels {
    r: u8,
    g: u8,
    b: u8,
    a: u8,
}

fn channels(color: u32) -> (c: Channels)
    ensures
        c.r == red(color),
        c.g == green(color),
        c.b == blue(color),
        c.a == alpha(color),
{
    Channels {
        r: (color / 0x1_0000 % 0x100) as u8,
        g: (color / 0x100 % 0x100) as u8,
        b: (color % 0x100) as u8,
        a: (color / 0x100_0000) as u8,
    }
}

/// How far the significand of `v / 255` as a single-precision float lies above the
/// binary point.
pub open spec fn unorm_shift(v: u8) -> int {
    if v == 255 {
        23
    } else if v >= 128 {
        24
    } else if v >= 64 {
        25
    } else if v >= 32 {
        26
    } else if v >= 16 {
        27
    } else if v >= 8 {
        28
    } else if v >= 4 {
        29
    } else if v >= 2 {
        30
    } else {
        31
    }
}

/// The significand of `v / 255` as a single-precision float: the nearest integer to
/// `v / 255` times the power of two that brings it to its full width.
pub open spec fn unorm_significand(v: u8) -> int {
    (2 * (v as int * pow2(unorm_shift(v) as nat)) + 255) / 510
}

/// The bits of the single-precision float nearest to `v / 255`.
pub open spec fn unorm_f32(v: u8) -> int {
    if v == 0 {
        0
    } else {
        (149 - unorm_shift(v)) * 0x80_0000 + unorm_significand(v)
    }
}

/// The significand is a full-width one, and no other integer is nearer to the quotient.
pub proof fn unorm_significand_is_nearest(v: u8)
    requires
        v > 0,
    ensures
        0x80_0000 <= unorm_significand(v) < 0x100_0000,
        -255 < 2 * (255 * unorm_significand(v) - v as int * pow2(unorm_shift(v) as nat)) < 255,
{
    shift_powers();
    let n = v as int * pow2(unorm_shift(v) as nat);
    assert(255 * 0x80_0000 <= n < 255 * 0x100_0000 - 128) by {
        if v == 255 {
            assert(n == 255 * 0x80_0000);
        } else if v >= 128 {
            assert(n == v * 0x100_0000);
        } else if v >= 64 {
            assert(n == v * 0x200_0000);
        } else if v >= 32 {
            assert(n == v * 0x400_0000);
        } else if v >= 16 {
            assert(n == v * 0x800_0000);
        } else if v >= 8 {
            assert(n == v * 0x1000_0000);
        } else if v >= 4 {
            assert(n == v * 0x2000_0000);
        } else if v >= 2 {
            assert(n == v * 0x4000_0000);
        } else {
            assert(n == v * 0x8000_0000);
        }
    }
    assert(n % 2 == 0 ==> 2 * n % 2 == 0);
}

proof fn shift_powers()
    ensures
        pow2(23) == 0x80_0000,
        pow2(24) == 0x100_0000,
        pow2(25) == 0x200_0000,
        pow2(26) == 0x400_0000,
        pow2(27) == 0x800_0000,
        pow2(28) == 0x1000_0000,
        pow2(29) == 0x2000_0000,
        pow2(30) == 0x4000_0000,
        pow2(31) == 0x8000_0000,
{
    vstd::arithmetic::power2::lemma2_to64();
}

/// The bits of the single-precision float nearest to `v / 255`.
pub fn unorm_to_f32_bits(v: u8) -> (r: u32)
    ensures
        r == unorm_f32(v),
{
    if v == 0 {
        return 0;
    }
    proof {
        shift_powers();
        unorm_significand_is_nearest(v);
    }
    let (field, scale): (u64, u64) = if v == 255 {
        (126, 0x80_0000)
    } else if v >= 128 {
        (125, 0x100_0000)
    } else if v >= 64 {
        (124, 0x200_0000)
    } else if v >= 32 {
        (123, 0x400_0000)
    } else if v >= 16 {
        (122, 0x800_0000)
    } else if v >= 8 {
        (121, 0x1000_0000)
    } else if v >= 4 {
        (120, 0x2000_0000)
    } else if v >= 2 {
        (119, 0x4000_0000)
    } else {
        (118, 0x8000_0000)
    };
    assert(v as int * scale as int <= 255 * 0x8000_0000) by (nonlinear_arith)
        requires
            v <= 255,
            scale <= 0x8000_0000,
    ;
    let significand: u64 = (2 * (v as u64 * scale) + 255) / 510;
    (field * 0x80_0000 + significand) as u32
}

/// The red, green, blue and alpha of a colour as floats from zero to one, given as their bits.
pub fn d3dcolor_to_rgba_f32(color: u32) -> (r: [u32; 4])
    ensures
        r@ == seq![
            unorm_f32(red(color)) as u32,
            unorm_f32(green(color)) as u32,
            unorm_f32(blue(color)) as u32,
            unorm_f32(alpha(color)) as u32,
        ],
{
    let c: Channels = channels(color);
    let r: [u32; 4] = [
        unorm_to_f32_bits(c.r),
        unorm_to_f32_bits(c.g),
        unorm_to_f32_bits(c.b),
        unorm_to_f32_bits(c.a),
    ];
    assert(r@ =~= seq![
        unorm_f32(red(color)) as u32,
        unorm_f32(green(color)) as u32,
        unorm_f32(blue(color)) as u32,
        unorm_f32(alpha(color)) as u32,
    ]);
    r
}

/// Whether `dst` repeats `pixel` from its first byte on.
pub open spec fn repeats(dst: Seq<u8>, pixel: Seq<u8>) -> bool {
    forall|i: int| 0 <= i < dst.len() ==> #[trigger] dst[i] == pixel[i % pixel.len() as int]
}

/// Fills `dst` with copies of `pixel`, the last one cut off where `dst` ends. An
/// empty pixel changes nothing.
pub fn splat_pixel_pattern(dst: &mut [u8], pixel: &[u8])
    ensures
        final(dst)@.len() == old(dst)@.len(),
        pixel@.len() == 0 ==> final(dst)@ == old(dst)@,
        pixel@.len() > 0 ==> repeats(final(dst)@, pixel@),
{
    let bpp: usize = pixel.len();
    if bpp == 0 {
        return;
    }
    let n: usize = dst.len();
    let mut i: usize = 0;
    while i < n
        invariant
            i <= n,
            n == dst@.len(),
            n == old(dst)@.len(),
            bpp == pixel@.len(),
            bpp > 0,
            forall|j: int| 0 <= j < i ==> #[trigger] dst@[j] == pixel@[j % bpp as int],
        decreases n - i,
    {
        dst[i] = pixel[i % bpp];
        i += 1;
    }
}

/// A filled stretch has the same byte again one pixel further on.
pub proof fn filled_pixels_are_alike(dst: Seq<u8>, pixel: Seq<u8>, i: int)
    requires
        repeats(dst, pixel),
        pixel.len() > 0,
        0 <= i,
        i + pixel.len() < dst.len(),
    ensures
        dst[i + pixel.len()] == dst[i],
        i < pixel.len() ==> dst[i] == pixel[i],
{
    assert((i + pixel.len()) % pixel.len() as int == i % pixel.len() as int) by {
        vstd::arithmetic::div_mod::lemma_mod_add_multiples_vanish(i, pixel.len() as int);
    }
    if i < pixel.len() {
        vstd::arithmetic::div_mod::lemma_small_mod(i as nat, pixel.len());
    }
}

/// The low and the high byte of a number, in this order.
pub open spec fn le16(v: int) -> Seq<u8> {
    seq![(v % 0x100) as u8, (v / 0x100) as u8]
}

/// The four bytes of a number, the lowest first.
pub open spec fn le32(v: int) -> Seq<u8> {
    seq![
        (v % 0x100) as u8,
        (v / 0x100 % 0x100) as u8,
        (v / 0x1_0000 % 0x100) as u8,
        (v / 0x100_0000) as u8,
    ]
}

fn push_le16(out: &mut Vec<u8>, v: u16)
    ensures
        final(out)@ == old(out)@ + le16(v as int),
{
    out.push((v % 0x100) as u8);
    out.push((v / 0x100) as u8);
    assert(out@ =~= old(out)@ + le16(v as int));
}

fn push_le32(out: &mut Vec<u8>, v: u32)
    ensures
        final(out)@ == old(out)@ + le32(v as int),
{
    out.push((v % 0x100) as u8);
    out.push((v / 0x100 % 0x100) as u8);
    out.push((v / 0x1_0000 % 0x100) as u8);
    out.push((v / 0x100_0000) as u8);
    assert(out@ =~= old(out)@ + le32(v as int));
}

/// The luminance of a colour by the weights of red, green and blue, rounded to nearest.
pub open spec fn luminance(r: u8, g: u8, b: u8) -> int {
    (2125 * r + 7154 * g + 721 * b + 5000) / 10000
}

fn d3dcolor_luminance(r: u8, g: u8, b: u8) -> (l: u8)
    ensures
        l == luminance(r, g, b),
{
    let weighted: u32 = 2125 * r as u32 + 7154 * g as u32 + 721 * b as u32;
    ((weighted + 5000) / 10000) as u8
}

/// A grey has the luminance of its channels.
pub proof fn luminance_of_grey(v: u8)
    ensures
        luminance(v, v, v) == v,
{
}

/// A channel at sixteen bits: the same byte twice, which keeps its share of the full range.
pub open spec fn unorm16(v: u8) -> int {
    257 * v
}

fn unorm8_to_unorm16(v: u8) -> (r: u16)
    ensures
        r == unorm16(v),
{
    v as u16 * 257
}

/// The integer nearest to `n / d`, the even one of two that are equally near.
pub open spec fn nearest_even(n: int, d: int) -> int {
    let q = n / d;
    let r = n % d;
    if 2 * r > d || (2 * r == d && q % 2 == 1) {
        q + 1
    } else {
        q
    }
}

/// A rounded quotient is at most half a step away, and even when exactly half a step.
pub proof fn rounding_is_to_the_nearest(n: int, d: int)
    requires
        0 <= n,
        0 < d,
    ensures
        -d <= 2 * (nearest_even(n, d) * d - n) <= d,
        (2 * (nearest_even(n, d) * d - n) == d || 2 * (nearest_even(n, d) * d - n) == -d)
            ==> nearest_even(n, d) % 2 == 0,
{
    vstd::arithmetic::div_mod::lemma_fundamental_div_mod(n, d);
    let q = n / d;
    assert((q + 1) * d == q * d + d) by (nonlinear_arith);
    assert(d * q == q * d) by (nonlinear_arith);
}

/// The biased exponent in the bits of a single-precision float.
pub open spec fn f32_exponent(bits: u32) -> int {
    bits as int / 0x80_0000 % 0x100
}

/// The fraction in the bits of a single-precision float.
pub open spec fn f32_fraction(bits: u32) -> int {
    bits as int % 0x80_0000
}

/// The magnitude of a half-precision float for the exponent and fraction of a single-precision one.
pub open spec fn f16_magnitude(exponent: int, fraction: int) -> int {
    if exponent == 255 {
        if fraction == 0 {
            0x7c00
        } else {
            0x7e00
        }
    } else if exponent >= 143 {
        0x7c00
    } else if exponent >= 113 {
        nearest_even((exponent - 112) * 0x80_0000 + fraction, 0x2000)
    } else if exponent >= 103 {
        nearest_even(0x80_0000 + fraction, pow2((126 - exponent) as nat) as int)
    } else {
        0
    }
}

/// The bits of the half-precision float for the bits of a single-precision one:
/// rounded to the nearest, infinite when too large, zero when below the least of
/// its kind, and with the same sign.
pub open spec fn f16_of(bits: u32) -> int {
    (if bits >= 0x8000_0000 {
        0x8000int
    } else {
        0
    }) + f16_magnitude(f32_exponent(bits), f32_fraction(bits))
}

fn power_of_two(k: u32) -> (r: u32)
    requires
        k < 32,
    ensures
        r == pow2(k as nat),
{
    let mut r: u32 = 1;
    let mut i: u32 = 0;
    proof {
        vstd::arithmetic::power2::lemma2_to64();
    }
    while i < k
        invariant
            i <= k < 32,
            r == pow2(i as nat),
        decreases k - i,
    {
        proof {
            vstd::arithmetic::power2::lemma_pow2_unfold((i + 1) as nat);
            vstd::arithmetic::power2::lemma2_to64();
            if i + 1 < 31 {
                vstd::arithmetic::power2::lemma_pow2_strictly_increases((i + 1) as nat, 31);
            }
        }
        r = r * 2;
        i += 1;
    }
    r
}

fn round_even(n: u32, d: u32) -> (r: u32)
    requires
        0 < d <= 0x80_0000,
    ensures
        r == nearest_even(n as int, d as int),
{
    let q: u32 = n / d;
    let rest: u32 = n % d;
    if 2 * rest > d || (2 * rest == d && q % 2 == 1) {
        proof {
            if d == 1 {
                assert(n % 1 == 0);
            }
            vstd::arithmetic::div_mod::lemma_fundamental_div_mod(n as int, d as int);
            assert(q < u32::MAX) by (nonlinear_arith)
                requires
                    n == d * q + rest,
                    rest >= 1,
                    d >= 1,
                    n <= u32::MAX,
            ;
        }
        q + 1
    } else {
        q
    }
}

proof fn subnormal_rounding_fits(fraction: int, d: int)
    requires
        0 <= fraction < 0x80_0000,
        d >= 0x2000,
    ensures
        0 <= nearest_even(0x80_0000 + fraction, d) <= 0x800,
{
    let n = 0x80_0000 + fraction;
    assert(n / d <= 0x7ff) by {
        vstd::arithmetic::div_mod::lemma_div_is_ordered_by_denominator(n, 0x2000, d);
    }
    assert(n / d >= 0) by {
        vstd::arithmetic::div_mod::lemma_div_pos_is_pos(n, d);
    }
}

/// The bits of the half-precision float for a single-precision float, both given as bits.
pub fn f32_to_f16_bits(bits: u32) -> (r: u16)
    ensures
        r == f16_of(bits),
{
    let sign: u32 = if bits >= 0x8000_0000 {
        0x8000
    } else {
        0
    };
    let exponent: u32 = bits / 0x80_0000 % 0x100;
    let fraction: u32 = bits % 0x80_0000;
    let magnitude: u32 = if exponent == 255 {
        if fraction == 0 {
            0x7c00
        } else {
            0x7e00
        }
    } else if exponent >= 143 {
        0x7c00
    } else if exponent >= 113 {
        round_even((exponent - 112) * 0x80_0000 + fraction, 0x2000)
    } else if exponent >= 103 {
        let d: u32 = power_of_two(126 - exponent);
        proof {
            vstd::arithmetic::power2::lemma2_to64();
            if 126 - exponent > 13 {
                vstd::arithmetic::power2::lemma_pow2_strictly_increases(
                    13,
                    (126 - exponent) as nat,
                );
            }
            if 126 - exponent < 23 {
                vstd::arithmetic::power2::lemma_pow2_strictly_increases(
                    (126 - exponent) as nat,
                    23,
                );
            }
            subnormal_rounding_fits(fraction as int, d as int);
        }
        round_even(0x80_0000 + fraction, d)
    } else {
        0
    };
    (sign + magnitude) as u16
}

/// What is not a number stays so, and what is infinite stays so.
pub proof fn special_floats_stay_special(bits: u32)
    requires
        f32_exponent(bits) == 255,
    ensures
        f16_of(bits) / 0x400 % 32 == 31,
        f32_fraction(bits) == 0 <==> f16_of(bits) % 0x400 == 0,
{
}

/// Turning the sign of a float turns the sign of its half-precision counterpart.
pub proof fn half_floats_keep_their_sign(bits: u32)
    requires
        bits < 0x8000_0000,
    ensures
        f16_of((bits + 0x8000_0000) as u32) == f16_of(bits) + 0x8000,
{
}

/// The top bits of red, green and blue: five, six and five.
pub open spec fn packed_565(r: u8, g: u8, b: u8) -> int {
    (r / 8) * 0x800 + (g / 4) * 0x20 + b / 8
}

/// The top bit of alpha and the top five bits of each colour.
pub open spec fn packed_1555(a: u8, r: u8, g: u8, b: u8) -> int {
    (a / 128) * 0x8000 + (r / 8) * 0x400 + (g / 8) * 0x20 + b / 8
}

/// The top four bits of each channel.
pub open spec fn packed_4444(a: u8, r: u8, g: u8, b: u8) -> int {
    (a / 16) * 0x1000 + (r / 16) * 0x100 + (g / 16) * 0x10 + b / 16
}

fn pack_565(r: u8, g: u8, b: u8) -> (v: u16)
    ensures
        v == packed_565(r, g, b),
{
    (r as u16 / 8) * 0x800 + (g as u16 / 4) * 0x20 + b as u16 / 8
}

fn pack_1555(a: u8, r: u8, g: u8, b: u8) -> (v: u16)
    ensures
        v == packed_1555(a, r, g, b),
{
    (a as u16 / 128) * 0x8000 + (r as u16 / 8) * 0x400 + (g as u16 / 8) * 0x20 + b as u16 / 8
}

fn pack_4444(a: u8, r: u8, g: u8, b: u8) -> (v: u16)
    ensures
        v == packed_4444(a, r, g, b),
{
    (a as u16 / 16) * 0x1000 + (r as u16 / 16) * 0x100 + (g as u16 / 16) * 0x10 + b as u16 / 16
}

/// The bytes of one pixel of a format filled with a colour; none for a format that
/// cannot be filled.
pub open spec fn fill_bytes(color: u32, format: u32) -> Option<Seq<u8>> {
    let r = red(color);
    let g = green(color);
    let b = blue(color);
    let a = alpha(color);
    if format == D3DFMT_A8R8G8B8 || format == D3DFMT_X8R8G8B8 {
        Some(seq![b, g, r, a])
    } else if format == D3DFMT_A8B8G8R8 || format == D3DFMT_X8B8G8R8 {
        Some(seq![r, g, b, a])
    } else if format == D3DFMT_R5G6B5 {
        Some(le16(packed_565(r, g, b)))
    } else if format == D3DFMT_A1R5G5B5 || format == D3DFMT_X1R5G5B5 {
        Some(le16(packed_1555(a, r, g, b)))
    } else if format == D3DFMT_A4R4G4B4 {
        Some(le16(packed_4444(a, r, g, b)))
    } else if format == D3DFMT_L8 {
        Some(seq![luminance(r, g, b) as u8])
    } else if format == D3DFMT_A8 {
        Some(seq![a])
    } else if format == D3DFMT_R32F {
        Some(le32(unorm_f32(r)))
    } else if format == D3DFMT_G32R32F {
        Some(le32(unorm_f32(r)) + le32(unorm_f32(g)))
    } else if format == D3DFMT_A32B32G32R32F {
        Some(le32(unorm_f32(r)) + le32(unorm_f32(g)) + le32(unorm_f32(b)) + le32(unorm_f32(a)))
    } else if format == D3DFMT_R16F {
        Some(le16(unorm_f16(r)))
    } else if format == D3DFMT_G16R16 {
        Some(le16(unorm16(r)) + le16(unorm16(g)))
    } else if format == D3DFMT_A16B16G16R16 {
        Some(le16(unorm16(r)) + le16(unorm16(g)) + le16(unorm16(b)) + le16(unorm16(a)))
    } else if format == D3DFMT_G16R16F {
        Some(le16(unorm_f16(r)) + le16(unorm_f16(g)))
    } else if format == D3DFMT_A16B16G16R16F {
        Some(le16(unorm_f16(r)) + le16(unorm_f16(g)) + le16(unorm_f16(b)) + le16(unorm_f16(a)))
    } else {
        None
    }
}

/// The bits of the half-precision float for `v / 255`.
pub open spec fn unorm_f16(v: u8) -> int {
    f16_of(unorm_f32(v) as u32)
}

fn unorm_to_f16_bits(v: u8) -> (r: u16)
    ensures
        r == unorm_f16(v),
{
    f32_to_f16_bits(unorm_to_f32_bits(v))
}

fn four8(x: u8, y: u8, z: u8, w: u8) -> (out: Vec<u8>)
    ensures
        out@ == seq![x, y, z, w],
{
    let mut out: Vec<u8> = Vec::new();
    out.push(x);
    out.push(y);
    out.push(z);
    out.push(w);
    assert(out@ =~= seq![x, y, z, w]);
    out
}

fn one8(x: u8) -> (out: Vec<u8>)
    ensures
        out@ == seq![x],
{
    let mut out: Vec<u8> = Vec::new();
    out.push(x);
    assert(out@ =~= seq![x]);
    out
}

fn one16(x: u16) -> (out: Vec<u8>)
    ensures
        out@ == le16(x as int),
{
    let mut out: Vec<u8> = Vec::new();
    push_le16(&mut out, x);
    assert(out@ =~= le16(x as int));
    out
}

fn two16(x: u16, y: u16) -> (out: Vec<u8>)
    ensures
        out@ == le16(x as int) + le16(y as int),
{
    let mut out: Vec<u8> = Vec::new();
    push_le16(&mut out, x);
    push_le16(&mut out, y);
    assert(out@ =~= le16(x as int) + le16(y as int));
    out
}

fn four16(x: u16, y: u16, z: u16, w: u16) -> (out: Vec<u8>)
    ensures
        out@ == le16(x as int) + le16(y as int) + le16(z as int) + le16(w as int),
{
    let mut out: Vec<u8> = Vec::new();
    push_le16(&mut out, x);
    push_le16(&mut out, y);
    push_le16(&mut out, z);
    push_le16(&mut out, w);
    assert(out@ =~= le16(x as int) + le16(y as int) + le16(z as int) + le16(w as int));
    out
}

fn one32(x: u32) -> (out: Vec<u8>)
    ensures
        out@ == le32(x as int),
{
    let mut out: Vec<u8> = Vec::new();
    push_le32(&mut out, x);
    assert(out@ =~= le32(x as int));
    out
}

fn two32(x: u32, y: u32) -> (out: Vec<u8>)
    ensures
        out@ == le32(x as int) + le32(y as int),
{
    let mut out: Vec<u8> = Vec::new();
    push_le32(&mut out, x);
    push_le32(&mut out, y);
    assert(out@ =~= le32(x as int) + le32(y as int));
    out
}

fn four32(x: u32, y: u32, z: u32, w: u32) -> (out: Vec<u8>)
    ensures
        out@ == le32(x as int) + le32(y as int) + le32(z as int) + le32(w as int),
{
    let mut out: Vec<u8> = Vec::new();
    push_le32(&mut out, x);
    push_le32(&mut out, y);
    push_le32(&mut out, z);
    push_le32(&mut out, w);
    assert(out@ =~= le32(x as int) + le32(y as int) + le32(z as int) + le32(w as int));
    out
}

/// Whether a format keeps at most eight bits of each channel.
pub open spec fn fills_narrow(format: u32) -> bool {
    format == D3DFMT_A8R8G8B8 || format == D3DFMT_X8R8G8B8 || format == D3DFMT_A8B8G8R8 || format
        == D3DFMT_X8B8G8R8 || format == D3DFMT_R5G6B5 || format == D3DFMT_A1R5G5B5 || format
        == D3DFMT_X1R5G5B5 || format == D3DFMT_A4R4G4B4 || format == D3DFMT_L8 || format
        == D3DFMT_A8
}

fn fill_wide_pixel_bytes(color: u32, d3d_format: u32) -> (bytes: Option<Vec<u8>>)
    requires
        !fills_narrow(d3d_format),
    ensures
        match bytes {
            Some(v) => fill_bytes(color, d3d_format) == Some(v@),
            None => fill_bytes(color, d3d_format) is None,
        },
{
    let c: Channels = channels(color);
    if d3d_format == D3DFMT_R32F {
        Some(one32(unorm_to_f32_bits(c.r)))
    } else if d3d_format == D3DFMT_G32R32F {
        Some(two32(unorm_to_f32_bits(c.r), unorm_to_f32_bits(c.g)))
    } else if d3d_format == D3DFMT_A32B32G32R32F {
        Some(
            four32(
                unorm_to_f32_bits(c.r),
                unorm_to_f32_bits(c.g),
                unorm_to_f32_bits(c.b),
                unorm_to_f32_bits(c.a),
            ),
        )
    } else if d3d_format == D3DFMT_R16F {
        Some(one16(unorm_to_f16_bits(c.r)))
    } else if d3d_format == D3DFMT_G16R16 {
        Some(two16(unorm8_to_unorm16(c.r), unorm8_to_unorm16(c.g)))
    } else if d3d_format == D3DFMT_A16B16G16R16 {
        Some(
            four16(
                unorm8_to_unorm16(c.r),
                unorm8_to_unorm16(c.g),
                unorm8_to_unorm16(c.b),
                unorm8_to_unorm16(c.a),
            ),
        )
    } else if d3d_format == D3DFMT_G16R16F {
        Some(two16(unorm_to_f16_bits(c.r), unorm_to_f16_bits(c.g)))
    } else if d3d_format == D3DFMT_A16B16G16R16F {
        Some(
            four16(
                unorm_to_f16_bits(c.r),
                unorm_to_f16_bits(c.g),
                unorm_to_f16_bits(c.b),
                unorm_to_f16_bits(c.a),
            ),
        )
    } else {
        None
    }
}

/// The bytes of one pixel of a format filled with a colour, if the format can be filled.
pub fn d3dcolor_fill_pixel_bytes(color: u32, d3d_format: u32) -> (bytes: Option<Vec<u8>>)
    ensures
        match bytes {
            Some(v) => fill_bytes(color, d3d_format) == Some(v@),
            None => fill_bytes(color, d3d_format) is None,
        },
{
    let c: Channels = channels(color);
    if d3d_format == D3DFMT_A8R8G8B8 || d3d_format == D3DFMT_X8R8G8B8 {
        Some(four8(c.b, c.g, c.r, c.a))
    } else if d3d_format == D3DFMT_A8B8G8R8 || d3d_format == D3DFMT_X8B8G8R8 {
        Some(four8(c.r, c.g, c.b, c.a))
    } else if d3d_format == D3DFMT_R5G6B5 {
        Some(one16(pack_565(c.r, c.g, c.b)))
    } else if d3d_format == D3DFMT_A1R5G5B5 || d3d_format == D3DFMT_X1R5G5B5 {
        Some(one16(pack_1555(c.a, c.r, c.g, c.b)))
    } else if d3d_format == D3DFMT_A4R4G4B4 {
        Some(one16(pack_4444(c.a, c.r, c.g, c.b)))
    } else if d3d_format == D3DFMT_L8 {
        Some(one8(d3dcolor_luminance(c.r, c.g, c.b)))
    } else if d3d_format == D3DFMT_A8 {
        Some(one8(c.a))
    } else {
        fill_wide_pixel_bytes(color, d3d_format)
    }
}

/// A pixel filled in the colour's own layout reads back as the colour.
pub proof fn own_layout_reads_back(color: u32)
    ensures
        fill_bytes(color, D3DFMT_A8R8G8B8) matches Some(s) && s.len() == 4 && s[0] + s[1] * 0x100
            + s[2] * 0x1_0000 + s[3] * 0x100_0000 == color,
{
}

} // verus!
