//! Channel quantization helpers shared by the block decoders.
use vstd::prelude::*;

verus! {

/// The first `len` bits of the endless repetition of the `width`-bit pattern `value`,
/// read from the most significant end.
pub open spec fn replicated(value: u8, width: u8, len: u8) -> u8
    decreases len,
{
    if width == 0 || len <= width {
        value >> ((width - len) as u8)
    } else {
        ((value << ((len - width) as u8)) | replicated(value, width, (len - width) as u8)) as u8
    }
}

/// An unsigned `width`-bit channel value widened to eight bits by bit replication.
pub open spec fn expanded(value: u8, width: u8) -> u8 {
    replicated(value, width, 8)
}

fn replicate_bits(value: u8, width: u8, len: u8) -> (r: u8)
    requires
        1 <= width < 8,
        len <= 8,
    ensures
        r == replicated(value, width, len),
    decreases len,
{
    if len <= width {
        value >> (width - len)
    } else {
        (value << (len - width)) | replicate_bits(value, width, len - width)
    }
}

/// Expands a `width`-bit unsigned value to eight bits by repeating its bits
/// from the most significant end, as graphics hardware does.
pub fn expand_bits(value: u8, width: u8) -> (r: u8)
    requires
        1 <= width < 8,
        value >> width == 0,
    ensures
        r == expanded(value, width),
{
    replicate_bits(value, width, 8)
}

/// `n / d` rounded to the nearest integer, halves rounding up.
pub open spec fn rounded_quotient(n: int, d: int) -> int {
    (2 * n + d) / (2 * d)
}

/// The blend `a * (d - f) / d + b * f / d` of two eight-bit values, rounded to nearest.
pub open spec fn blend(a: u8, b: u8, f: int, d: int) -> int {
    rounded_quotient(a * (d - f) + b * f, d)
}

/// A signed-normalized byte (two's complement, -128 read as -127) moved to `0..=254`.
pub open spec fn snorm_offset(byte: u8) -> int {
    let s: int = if byte < 128 { byte as int } else { byte - 256 };
    (if s < -127 { -127 } else { s }) + 127
}

/// The blend of two signed-normalized bytes, each scaled exactly by `255 / 254`
/// before blending, rounded to nearest.
pub open spec fn signed_blend(byte0: u8, byte1: u8, f: int, d: int) -> int {
    rounded_quotient(255 * (snorm_offset(byte0) * (d - f) + snorm_offset(byte1) * f), 254 * d)
}

/// A signed-normalized byte mapped onto `0..=255`.
pub open spec fn snorm_to_unorm(byte: u8) -> int {
    rounded_quotient(255 * snorm_offset(byte), 254)
}

proof fn lemma_rounded_at_most(n: int, d: int, top: int)
    requires
        0 <= n <= top * d,
        1 <= d,
    ensures
        0 <= rounded_quotient(n, d) <= top,
{
    assert(0 <= (2 * n + d) / (2 * d) <= top) by (nonlinear_arith)
        requires
            0 <= n <= top * d,
            1 <= d,
    ;
}

proof fn lemma_weighted_sum(a: int, b: int, f: int, d: int, top: int)
    requires
        0 <= a <= top,
        0 <= b <= top,
        0 <= f <= d,
    ensures
        0 <= a * (d - f) + b * f <= top * d,
{
    assert(0 <= a * (d - f) + b * f <= top * d) by (nonlinear_arith)
        requires
            0 <= a <= top,
            0 <= b <= top,
            0 <= f <= d;
}

/// `n / d` rounded to nearest, halves up.
fn round_quotient(n: u32, d: u32) -> (r: u32)
    requires
        1 <= d <= 2048,
        n <= 1_000_000,
    ensures
        r == rounded_quotient(n as int, d as int),
{
    (2 * n + d) / (2 * d)
}

/// Blends two eight-bit values with weight `f / d` on the second, rounded to nearest.
pub fn blend_channel(a: u8, b: u8, f: u32, d: u32) -> (r: u8)
    requires
        f <= d,
        1 <= d <= 8,
    ensures
        r == blend(a, b, f as int, d as int),
{
    proof {
        lemma_weighted_sum(a as int, b as int, f as int, d as int, 255);
        lemma_rounded_at_most(a * (d - f) + b * f, d as int, 255);
    }
    let n: u32 = a as u32 * (d - f) + b as u32 * f;
    round_quotient(n, d) as u8
}

/// The offset `clamp(s, -127, 127) + 127` of a signed-normalized byte `s`.
fn signed_offset(byte: u8) -> (r: u32)
    ensures
        r == snorm_offset(byte),
        r <= 254,
{
    if byte == 128 {
        0
    } else if byte < 128 {
        byte as u32 + 127
    } else {
        byte as u32 - 129
    }
}

/// Maps a signed-normalized byte (-127..=127, with -128 read as -127) onto
/// `0..=255` by `(clamp(s, -127, 127) + 127) * 255 / 254`, rounded to nearest.
pub fn signed_normalized_to_unsigned(byte: u8) -> (r: u8)
    ensures
        r == snorm_to_unorm(byte),
{
    let x = signed_offset(byte);
    proof {
        lemma_rounded_at_most(255 * x, 254, 255);
    }
    round_quotient(255 * x, 254) as u8
}

/// Blends two signed-normalized bytes with weight `f / d` on the second: both are
/// scaled exactly by `255 / 254` first, and the blend is rounded to nearest.
pub fn blend_signed_channel(byte0: u8, byte1: u8, f: u32, d: u32) -> (r: u8)
    requires
        f <= d,
        1 <= d <= 8,
    ensures
        r == signed_blend(byte0, byte1, f as int, d as int),
{
    let x0 = signed_offset(byte0);
    let x1 = signed_offset(byte1);
    proof {
        lemma_weighted_sum(x0 as int, x1 as int, f as int, d as int, 254);
        let m = x0 * (d - f) + x1 * f;
        assert(255 * m <= 255 * (254 * d)) by (nonlinear_arith)
            requires m <= 254 * d;
        lemma_rounded_at_most(255 * m, 254 * d, 255);
    }
    let m: u32 = x0 * (d - f) + x1 * f;
    round_quotient(255 * m, 254 * d) as u8
}

/// The red (five bits), green (six bits) and blue (five bits) fields of a packed color.
pub open spec fn red5(c: u16) -> u8 {
    ((c >> 11u16) & 0x1f) as u8
}

pub open spec fn green6(c: u16) -> u8 {
    ((c >> 5u16) & 0x3f) as u8
}

pub open spec fn blue5(c: u16) -> u8 {
    (c & 0x1f) as u8
}

/// A packed 5-6-5 color widened to opaque RGBA with eight bits per channel.
pub open spec fn unpacked_565(c: u16) -> Seq<u8> {
    seq![expanded(red5(c), 5), expanded(green6(c), 6), expanded(blue5(c), 5), 255u8]
}

/// The channel-wise blend of two unpacked colors with weight `f / d` on the second,
/// alpha fully opaque.
pub open spec fn blended_565(c0: u16, c1: u16, f: int, d: int) -> Seq<u8> {
    let a = unpacked_565(c0);
    let b = unpacked_565(c1);
    seq![blend(a[0], b[0], f, d) as u8, blend(a[1], b[1], f, d) as u8, blend(a[2], b[2], f, d) as u8, 255u8]
}

/// Splits a packed 5-6-5 color into its fields and widens each to eight bits;
/// alpha is fully opaque.
pub fn unpack_565(c: u16) -> (r: [u8; 4])
    ensures
        r@ == unpacked_565(c),
{
    let r5 = ((c >> 11u16) & 0x1f) as u8;
    let g6 = ((c >> 5u16) & 0x3f) as u8;
    let b5 = (c & 0x1f) as u8;
    assert(((c >> 11u16) & 0x1f) as u8 >> 5u8 == 0) by (bit_vector);
    assert(((c >> 5u16) & 0x3f) as u8 >> 6u8 == 0) by (bit_vector);
    assert((c & 0x1f) as u8 >> 5u8 == 0) by (bit_vector);
    let r: [u8; 4] = [expand_bits(r5, 5), expand_bits(g6, 6), expand_bits(b5, 5), 255];
    assert(r@ =~= unpacked_565(c));
    r
}

/// Blends two packed 5-6-5 colors channel by channel, after widening, with weight
/// `f / d` on the second; alpha is fully opaque.
pub fn blend_565(c0: u16, c1: u16, f: u32, d: u32) -> (r: [u8; 4])
    requires
        f <= d,
        1 <= d <= 8,
    ensures
        r@ == blended_565(c0, c1, f as int, d as int),
{
    let a = unpack_565(c0);
    let b = unpack_565(c1);
    let r: [u8; 4] = [
        blend_channel(a[0], b[0], f, d),
        blend_channel(a[1], b[1], f, d),
        blend_channel(a[2], b[2], f, d),
        255,
    ];
    assert(r@ =~= blended_565(c0, c1, f as int, d as int));
    r
}

} // verus!
