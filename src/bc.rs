//! Per-block decoders for the BC1 to BC5 formats; BC7 is refused.
use vstd::prelude::*;

use crate::convert::{
    blend, blend_565, blend_channel, expand_bits, expanded, blended_565, unpack_565, unpacked_565, blend_signed_channel, signed_blend, signed_normalized_to_unsigned,
    snorm_to_unorm,
};

verus! {

/// How a BC1 block fills the two palette slots after its reference colors.
#[derive(Clone, Copy, Debug, PartialEq, Eq, Structural)]
pub enum Bc1Mode {
    /// Opaque: the colors one third and two thirds of the way between the references.
    FourColor,
    /// One-bit alpha: the midpoint of the references, then transparent black.
    ThreeColor,
}

/// The mode that two packed BC1 reference colors select, compared as raw integers.
pub open spec fn bc1_mode_of(c0: u16, c1: u16) -> Bc1Mode {
    if c0 > c1 {
        Bc1Mode::FourColor
    } else {
        Bc1Mode::ThreeColor
    }
}

/// Selects the BC1 palette mode from the two packed reference colors.
pub fn bc1_mode(c0: u16, c1: u16) -> (m: Bc1Mode)
    ensures
        m == bc1_mode_of(c0, c1),
{
    if c0 > c1 {
        Bc1Mode::FourColor
    } else {
        Bc1Mode::ThreeColor
    }
}

/// The little-endian 16-bit value of two bytes.
pub open spec fn le_u16(lo: u8, hi: u8) -> u16 {
    (lo as u16) | ((hi as u16) << 8u16)
}

/// The first packed reference color of a BC1 block (bytes 0 and 1).
pub open spec fn bc1_color0(b: Seq<u8>) -> u16 {
    le_u16(b[0], b[1])
}

/// The second packed reference color of a BC1 block (bytes 2 and 3).
pub open spec fn bc1_color1(b: Seq<u8>) -> u16 {
    le_u16(b[2], b[3])
}

/// The 32-bit little-endian index word of a BC1 block (bytes 4..8).
pub open spec fn bc1_indexes(b: Seq<u8>) -> u32 {
    (b[4] as u32) | ((b[5] as u32) << 8u32) | ((b[6] as u32) << 16u32) | ((b[7] as u32) << 24u32)
}

/// The 2-bit palette index of pixel `i` (raster order), least-significant pair first.
pub open spec fn bc1_index(b: Seq<u8>, i: int) -> int {
    ((bc1_indexes(b) >> ((2 * i) as u32)) & 3u32) as int
}

/// Palette slot `k` (RGBA) of a BC1 block with packed references `c0` and `c1`.
pub open spec fn bc1_entry(c0: u16, c1: u16, k: int) -> Seq<u8> {
    if k == 0 {
        unpacked_565(c0)
    } else if k == 1 {
        unpacked_565(c1)
    } else if bc1_mode_of(c0, c1) == Bc1Mode::FourColor {
        if k == 2 {
            blended_565(c0, c1, 1, 3)
        } else {
            blended_565(c0, c1, 2, 3)
        }
    } else if k == 2 {
        blended_565(c0, c1, 1, 2)
    } else {
        seq![0u8, 0u8, 0u8, 0u8]
    }
}

/// The RGBA pixel `i` (raster order) of a BC1 block.
pub open spec fn bc1_pixel(b: Seq<u8>, i: int) -> Seq<u8> {
    bc1_entry(bc1_color0(b), bc1_color1(b), bc1_index(b, i))
}

/// Decodes a BC1 block into 16 RGBA pixels in raster order.
pub fn decode_bc1_block(block_bytes: [u8; 8]) -> (r: [[u8; 4]; 16])
    ensures
        forall|i: int| 0 <= i < 16 ==> r[i]@ == bc1_pixel(block_bytes@, i),
{
    let color0: u16 = (block_bytes[0] as u16) | ((block_bytes[1] as u16) << 8u16);
    let color1: u16 = (block_bytes[2] as u16) | ((block_bytes[3] as u16) << 8u16);
    let (c2, c3) = match bc1_mode(color0, color1) {
        Bc1Mode::FourColor => (blend_565(color0, color1, 1, 3), blend_565(color0, color1, 2, 3)),
        Bc1Mode::ThreeColor => (blend_565(color0, color1, 1, 2), [0u8, 0, 0, 0]),
    };
    let palette: [[u8; 4]; 4] = [unpack_565(color0), unpack_565(color1), c2, c3];
    assert forall|k: int| 0 <= k < 4 implies palette[k]@ == bc1_entry(color0, color1, k) by {
        if k == 3 && bc1_mode_of(color0, color1) == Bc1Mode::ThreeColor {
            assert(palette[k]@ =~= seq![0u8, 0u8, 0u8, 0u8]);
        }
    }
    let indexes: u32 = (block_bytes[4] as u32) | ((block_bytes[5] as u32) << 8u32)
        | ((block_bytes[6] as u32) << 16u32) | ((block_bytes[7] as u32) << 24u32);
    let mut pixels: [[u8; 4]; 16] = [[0u8; 4]; 16];
    let mut i: usize = 0;
    while i < 16
        invariant
            i <= 16,
            indexes == bc1_indexes(block_bytes@),
            forall|k: int| 0 <= k < 4 ==> palette[k]@ == bc1_entry(color0, color1, k),
            color0 == bc1_color0(block_bytes@),
            color1 == bc1_color1(block_bytes@),
            forall|k: int| 0 <= k < i ==> pixels[k]@ == bc1_pixel(block_bytes@, k),
        decreases 16 - i,
    {
        let shift = (2 * i) as u32;
        let index = (indexes >> shift) & 3u32;
        assert(index < 4) by (bit_vector)
            requires index == (indexes >> shift) & 3u32;
        assert(index == bc1_index(block_bytes@, i as int));
        pixels[i] = palette[index as usize];
        i += 1;
    }
    pixels
}

/// How a BC4 block fills the six palette slots after its two reference values.
#[derive(Clone, Copy, Debug, PartialEq, Eq, Structural)]
pub enum Bc4Mode {
    /// Six values interpolated at sevenths between the references.
    SixInterpolated,
    /// Four values interpolated at fifths, then black (0) and white (255).
    FourInterpolated,
}

/// The mode that two BC4 reference values (in the unsigned domain) select.
pub open spec fn bc4_mode_of(c0: int, c1: int) -> Bc4Mode {
    if c0 > c1 {
        Bc4Mode::SixInterpolated
    } else {
        Bc4Mode::FourInterpolated
    }
}

/// Selects the BC4 palette mode from two reference values in the unsigned domain.
pub fn bc4_mode(c0: u8, c1: u8) -> (m: Bc4Mode)
    ensures
        m == bc4_mode_of(c0 as int, c1 as int),
{
    if c0 > c1 {
        Bc4Mode::SixInterpolated
    } else {
        Bc4Mode::FourInterpolated
    }
}

/// The 24-bit little-endian index group `g` (0 or 1) of a BC4 block: bytes 2..5 or 5..8.
pub open spec fn bc4_group(b: Seq<u8>, g: int) -> u32 {
    (b[2 + 3 * g] as u32) | ((b[3 + 3 * g] as u32) << 8u32) | ((b[4 + 3 * g] as u32) << 16u32)
}

/// The 3-bit palette index of pixel `i` (raster order) of a BC4 block.
pub open spec fn bc4_index(b: Seq<u8>, i: int) -> int {
    ((bc4_group(b, i / 8) >> ((3 * (i % 8)) as u32)) & 7u32) as int
}

/// Palette slot `k` of an unsigned BC4 block with references `c0` and `c1`.
pub open spec fn bc4_unsigned_entry(c0: u8, c1: u8, k: int) -> u8 {
    if k == 0 {
        c0
    } else if k == 1 {
        c1
    } else if bc4_mode_of(c0 as int, c1 as int) == Bc4Mode::SixInterpolated {
        blend(c0, c1, k - 1, 7) as u8
    } else if k <= 5 {
        blend(c0, c1, k - 1, 5) as u8
    } else if k == 6 {
        0
    } else {
        255
    }
}

/// Palette slot `k` of a signed BC4 block with reference bytes `b0` and `b1`: the
/// references are mapped to the unsigned domain, which also decides the mode, and the
/// interpolated slots blend their exact scaled values.
pub open spec fn bc4_signed_entry(b0: u8, b1: u8, k: int) -> u8 {
    let c0 = snorm_to_unorm(b0);
    let c1 = snorm_to_unorm(b1);
    if k == 0 {
        c0 as u8
    } else if k == 1 {
        c1 as u8
    } else if bc4_mode_of(c0, c1) == Bc4Mode::SixInterpolated {
        signed_blend(b0, b1, k - 1, 7) as u8
    } else if k <= 5 {
        signed_blend(b0, b1, k - 1, 5) as u8
    } else if k == 6 {
        0
    } else {
        255
    }
}

/// The sample of pixel `i` of an unsigned BC4 block.
pub open spec fn bc4_unsigned_sample(b: Seq<u8>, i: int) -> u8 {
    bc4_unsigned_entry(b[0], b[1], bc4_index(b, i))
}

/// The sample of pixel `i` of a signed BC4 block, in the unsigned domain.
pub open spec fn bc4_signed_sample(b: Seq<u8>, i: int) -> u8 {
    bc4_signed_entry(b[0], b[1], bc4_index(b, i))
}

/// Looks up each pixel's 3-bit index of a BC4 block in `palette`.
fn bc4_lookup(block: &[u8; 8], palette: &[u8; 8]) -> (r: [[u8; 1]; 16])
    ensures
        forall|i: int| 0 <= i < 16 ==> 0 <= #[trigger] bc4_index(block@, i) < 8,
        forall|i: int| 0 <= i < 16 ==> r[i][0] == palette[bc4_index(block@, i)],
{
    let group0: u32 = (block[2] as u32) | ((block[3] as u32) << 8u32) | ((block[4] as u32) << 16u32);
    let group1: u32 = (block[5] as u32) | ((block[6] as u32) << 8u32) | ((block[7] as u32) << 16u32);
    let mut pixels: [[u8; 1]; 16] = [[0u8; 1]; 16];
    let mut i: usize = 0;
    while i < 16
        invariant
            i <= 16,
            group0 == bc4_group(block@, 0),
            group1 == bc4_group(block@, 1),
            forall|k: int| 0 <= k < i ==> 0 <= #[trigger] bc4_index(block@, k) < 8,
            forall|k: int| 0 <= k < i ==> pixels[k][0] == palette[bc4_index(block@, k)],
        decreases 16 - i,
    {
        let group = if i < 8 { group0 } else { group1 };
        let shift = (3 * (i % 8)) as u32;
        let index = (group >> shift) & 7u32;
        assert(index < 8) by (bit_vector)
            requires index == (group >> shift) & 7u32;
        assert(index == bc4_index(block@, i as int));
        pixels[i] = [palette[index as usize]];
        i += 1;
    }
    pixels
}

/// Decodes an unsigned BC4 block into 16 single-channel pixels in raster order.
pub fn decode_bc4_unsigned_block(block_bytes: [u8; 8]) -> (r: [[u8; 1]; 16])
    ensures
        forall|i: int| 0 <= i < 16 ==> r[i][0] == bc4_unsigned_sample(block_bytes@, i),
{
    let c0 = block_bytes[0];
    let c1 = block_bytes[1];
    let palette: [u8; 8] = match bc4_mode(c0, c1) {
        Bc4Mode::SixInterpolated => [
            c0,
            c1,
            blend_channel(c0, c1, 1, 7),
            blend_channel(c0, c1, 2, 7),
            blend_channel(c0, c1, 3, 7),
            blend_channel(c0, c1, 4, 7),
            blend_channel(c0, c1, 5, 7),
            blend_channel(c0, c1, 6, 7),
        ],
        Bc4Mode::FourInterpolated => [
            c0,
            c1,
            blend_channel(c0, c1, 1, 5),
            blend_channel(c0, c1, 2, 5),
            blend_channel(c0, c1, 3, 5),
            blend_channel(c0, c1, 4, 5),
            0,
            255,
        ],
    };
    assert forall|k: int| 0 <= k < 8 implies palette[k] == bc4_unsigned_entry(c0, c1, k) by {}
    bc4_lookup(&block_bytes, &palette)
}

/// Decodes a signed BC4 block into 16 single-channel pixels in raster order, each
/// mapped onto the unsigned range.
pub fn decode_bc4_signed_block(block_bytes: [u8; 8]) -> (r: [[u8; 1]; 16])
    ensures
        forall|i: int| 0 <= i < 16 ==> r[i][0] == bc4_signed_sample(block_bytes@, i),
{
    let b0 = block_bytes[0];
    let b1 = block_bytes[1];
    let c0 = signed_normalized_to_unsigned(b0);
    let c1 = signed_normalized_to_unsigned(b1);
    let palette: [u8; 8] = match bc4_mode(c0, c1) {
        Bc4Mode::SixInterpolated => [
            c0,
            c1,
            blend_signed_channel(b0, b1, 1, 7),
            blend_signed_channel(b0, b1, 2, 7),
            blend_signed_channel(b0, b1, 3, 7),
            blend_signed_channel(b0, b1, 4, 7),
            blend_signed_channel(b0, b1, 5, 7),
            blend_signed_channel(b0, b1, 6, 7),
        ],
        Bc4Mode::FourInterpolated => [
            c0,
            c1,
            blend_signed_channel(b0, b1, 1, 5),
            blend_signed_channel(b0, b1, 2, 5),
            blend_signed_channel(b0, b1, 3, 5),
            blend_signed_channel(b0, b1, 4, 5),
            0,
            255,
        ],
    };
    assert forall|k: int| 0 <= k < 8 implies palette[k] == bc4_signed_entry(b0, b1, k) by {}
    bc4_lookup(&block_bytes, &palette)
}

/// The two 8-byte halves of a 16-byte block.
fn split_block(block: &[u8; 16]) -> (r: ([u8; 8], [u8; 8]))
    ensures
        r.0@ == block@.subrange(0, 8),
        r.1@ == block@.subrange(8, 16),
{
    let first: [u8; 8] = [block[0], block[1], block[2], block[3], block[4], block[5], block[6], block[7]];
    let second: [u8; 8] = [block[8], block[9], block[10], block[11], block[12], block[13], block[14], block[15]];
    assert(first@ =~= block@.subrange(0, 8));
    assert(second@ =~= block@.subrange(8, 16));
    (first, second)
}

/// The explicit alpha of pixel `i` of a BC2 block: the low nibble of byte `i / 2` for an
/// even pixel, the high nibble for an odd one, widened to eight bits.
pub open spec fn bc2_alpha(b: Seq<u8>, i: int) -> u8 {
    let byte = b[i / 2];
    expanded(if i % 2 == 0 { byte & 0xfu8 } else { byte >> 4u8 }, 4)
}

/// The RGBA pixel `i` of a BC2 block: color from the BC1 half (bytes 8..16), alpha
/// from the explicit half (bytes 0..8).
pub open spec fn bc2_pixel(b: Seq<u8>, i: int) -> Seq<u8> {
    bc1_pixel(b.subrange(8, 16), i).update(3, bc2_alpha(b, i))
}

/// The RGBA pixel `i` of a BC3 block: color from the BC1 half (bytes 8..16), alpha
/// from the unsigned BC4 half (bytes 0..8).
pub open spec fn bc3_pixel(b: Seq<u8>, i: int) -> Seq<u8> {
    bc1_pixel(b.subrange(8, 16), i).update(3, bc4_unsigned_sample(b.subrange(0, 8), i))
}

/// The three-channel pixel `i` of an unsigned BC5 block: red from bytes 0..8, green from
/// bytes 8..16, blue 0.
pub open spec fn bc5_unsigned_pixel(b: Seq<u8>, i: int) -> Seq<u8> {
    seq![bc4_unsigned_sample(b.subrange(0, 8), i), bc4_unsigned_sample(b.subrange(8, 16), i), 0u8]
}

/// The three-channel pixel `i` of a signed BC5 block, in the unsigned domain: red from
/// bytes 0..8, green from bytes 8..16, blue 128 (signed zero).
pub open spec fn bc5_signed_pixel(b: Seq<u8>, i: int) -> Seq<u8> {
    seq![bc4_signed_sample(b.subrange(0, 8), i), bc4_signed_sample(b.subrange(8, 16), i), 128u8]
}

/// Decodes a BC2 block into 16 RGBA pixels in raster order.
pub fn decode_bc2_block(block_bytes: [u8; 16]) -> (r: [[u8; 4]; 16])
    ensures
        forall|i: int| 0 <= i < 16 ==> r[i]@ == bc2_pixel(block_bytes@, i),
{
    let (alpha_bytes, color_bytes) = split_block(&block_bytes);
    let color = decode_bc1_block(color_bytes);
    let mut pixels = color;
    let mut i: usize = 0;
    while i < 16
        invariant
            i <= 16,
            alpha_bytes@ == block_bytes@.subrange(0, 8),
            color_bytes@ == block_bytes@.subrange(8, 16),
            forall|k: int| 0 <= k < 16 ==> color[k]@ == bc1_pixel(color_bytes@, k),
            forall|k: int| i <= k < 16 ==> pixels[k] == color[k],
            forall|k: int| 0 <= k < i ==> pixels[k]@ == bc2_pixel(block_bytes@, k),
        decreases 16 - i,
    {
        let byte = alpha_bytes[i / 2];
        let nibble = if i % 2 == 0 { byte & 0xfu8 } else { byte >> 4u8 };
        assert(nibble >> 4u8 == 0) by (bit_vector)
            requires nibble == byte & 0xfu8 || nibble == byte >> 4u8;
        let mut pixel = pixels[i];
        pixel[3] = expand_bits(nibble, 4);
        assert(pixel@ =~= bc2_pixel(block_bytes@, i as int));
        pixels[i] = pixel;
        i += 1;
    }
    pixels
}

/// Decodes a BC3 block into 16 RGBA pixels in raster order.
pub fn decode_bc3_block(block_bytes: [u8; 16]) -> (r: [[u8; 4]; 16])
    ensures
        forall|i: int| 0 <= i < 16 ==> r[i]@ == bc3_pixel(block_bytes@, i),
{
    let (alpha_bytes, color_bytes) = split_block(&block_bytes);
    let color = decode_bc1_block(color_bytes);
    let alpha = decode_bc4_unsigned_block(alpha_bytes);
    let mut pixels = color;
    let mut i: usize = 0;
    while i < 16
        invariant
            i <= 16,
            alpha_bytes@ == block_bytes@.subrange(0, 8),
            color_bytes@ == block_bytes@.subrange(8, 16),
            forall|k: int| 0 <= k < 16 ==> color[k]@ == bc1_pixel(color_bytes@, k),
            forall|k: int| 0 <= k < 16 ==> alpha[k][0] == bc4_unsigned_sample(alpha_bytes@, k),
            forall|k: int| i <= k < 16 ==> pixels[k] == color[k],
            forall|k: int| 0 <= k < i ==> pixels[k]@ == bc3_pixel(block_bytes@, k),
        decreases 16 - i,
    {
        let mut pixel = pixels[i];
        pixel[3] = alpha[i][0];
        assert(pixel@ =~= bc3_pixel(block_bytes@, i as int));
        pixels[i] = pixel;
        i += 1;
    }
    pixels
}

/// Interleaves two single-channel decodes into three-channel pixels with a fixed third channel.
fn interleave(red: &[[u8; 1]; 16], green: &[[u8; 1]; 16], blue: u8) -> (r: [[u8; 3]; 16])
    ensures
        forall|i: int| 0 <= i < 16 ==> r[i]@ == seq![red[i][0], green[i][0], blue],
{
    let mut pixels: [[u8; 3]; 16] = [[0u8; 3]; 16];
    let mut i: usize = 0;
    while i < 16
        invariant
            i <= 16,
            forall|k: int| 0 <= k < i ==> pixels[k]@ == seq![red[k][0], green[k][0], blue],
        decreases 16 - i,
    {
        let pixel: [u8; 3] = [red[i][0], green[i][0], blue];
        assert(pixel@ =~= seq![red[i as int][0], green[i as int][0], blue]);
        pixels[i] = pixel;
        i += 1;
    }
    pixels
}

/// Decodes an unsigned BC5 block into 16 three-channel pixels in raster order.
pub fn decode_bc5_unsigned_block(block_bytes: [u8; 16]) -> (r: [[u8; 3]; 16])
    ensures
        forall|i: int| 0 <= i < 16 ==> r[i]@ == bc5_unsigned_pixel(block_bytes@, i),
{
    let (red_bytes, green_bytes) = split_block(&block_bytes);
    let red = decode_bc4_unsigned_block(red_bytes);
    let green = decode_bc4_unsigned_block(green_bytes);
    interleave(&red, &green, 0)
}

/// Decodes a signed BC5 block into 16 three-channel pixels in raster order, mapped onto
/// the unsigned range.
pub fn decode_bc5_signed_block(block_bytes: [u8; 16]) -> (r: [[u8; 3]; 16])
    ensures
        forall|i: int| 0 <= i < 16 ==> r[i]@ == bc5_signed_pixel(block_bytes@, i),
{
    let (red_bytes, green_bytes) = split_block(&block_bytes);
    let red = decode_bc4_signed_block(red_bytes);
    let green = decode_bc4_signed_block(green_bytes);
    interleave(&red, &green, 128)
}

/// Why a block could not be decoded.
#[derive(Clone, Copy, Debug, PartialEq, Eq, Structural)]
pub enum DecodeError {
    /// The block's format has no decoder in this library.
    UnsupportedFormat,
}

/// Decodes a BC7 block into 16 RGBA pixels. BC7 decoding is not available: every block
/// is refused, so no caller mistakes a placeholder for pixels.
pub fn decode_bc7_block(block_bytes: [u8; 16]) -> (r: Result<[[u8; 4]; 16], DecodeError>)
    ensures
        r == Err::<[[u8; 4]; 16], DecodeError>(DecodeError::UnsupportedFormat),
{
    let _ = block_bytes;
    Err(DecodeError::UnsupportedFormat)
}

/// A BC1 block decodes in three-color mode exactly when its first reference color is not
/// greater than its second as a raw integer, and in four-color mode exactly when it is
/// greater. In four-color mode every pixel is opaque; in three-color mode a pixel with
/// index 3 is transparent black.
pub proof fn bc1_mode_by_reference_order(block: Seq<u8>, i: int)
    requires
        block.len() == 8,
        0 <= i < 16,
    ensures
        (bc1_mode_of(bc1_color0(block), bc1_color1(block)) == Bc1Mode::ThreeColor) == (
        bc1_color0(block) <= bc1_color1(block)),
        (bc1_mode_of(bc1_color0(block), bc1_color1(block)) == Bc1Mode::FourColor) == (
        bc1_color0(block) > bc1_color1(block)),
        bc1_color0(block) > bc1_color1(block) ==> bc1_pixel(block, i)[3] == 255,
        bc1_color0(block) <= bc1_color1(block) && bc1_index(block, i) == 3 ==> bc1_pixel(block, i)
            == seq![0u8, 0u8, 0u8, 0u8],
{
}

proof fn lemma_blend_equal_midpoint(a: u8)
    ensures
        blend(a, a, 1, 2) == a,
{
    let x = a as int;
    assert((2 * (x * (2 - 1) + x * 1) + 2) / (2 * 2int) == x) by (nonlinear_arith);
}

/// Equal reference colors select three-color mode: the first three palette slots are then
/// the same color and the last is transparent black.
pub proof fn bc1_equal_references(c: u16)
    ensures
        bc1_mode_of(c, c) == Bc1Mode::ThreeColor,
        bc1_entry(c, c, 1) == bc1_entry(c, c, 0),
        bc1_entry(c, c, 2) == bc1_entry(c, c, 0),
        bc1_entry(c, c, 3) == seq![0u8, 0u8, 0u8, 0u8],
{
    let e = unpacked_565(c);
    lemma_blend_equal_midpoint(e[0]);
    lemma_blend_equal_midpoint(e[1]);
    lemma_blend_equal_midpoint(e[2]);
    assert(bc1_entry(c, c, 2) =~= bc1_entry(c, c, 0));
}

/// A BC3 block whose alpha half is all `0xff` bytes is fully opaque, whatever its color half.
pub proof fn bc3_all_ones_alpha_is_opaque(block: Seq<u8>, i: int)
    requires
        block.len() == 16,
        forall|k: int| 0 <= k < 8 ==> block[k] == 0xffu8,
        0 <= i < 16,
    ensures
        bc3_pixel(block, i)[3] == 255,
{
    let alpha = block.subrange(0, 8);
    let g = i / 8;
    let shift = (3 * (i % 8)) as u32;
    assert(alpha[2 + 3 * g] == 0xffu8 && alpha[3 + 3 * g] == 0xffu8 && alpha[4 + 3 * g] == 0xffu8);
    assert(((0xffu8 as u32) | ((0xffu8 as u32) << 8u32) | ((0xffu8 as u32) << 16u32)) == 0xffffffu32)
        by (bit_vector);
    assert(bc4_group(alpha, g) == 0xffffffu32);
    assert((0xffffffu32 >> shift) & 7u32 == 7u32) by (bit_vector)
        requires shift <= 21;
    assert(bc4_index(alpha, i) == 7);
    assert(alpha[0] == 0xffu8 && alpha[1] == 0xffu8);
    assert(bc4_unsigned_entry(0xffu8, 0xffu8, 7) == 255);
    assert(bc4_unsigned_sample(alpha, i) == 255);
    assert(bc1_pixel(block.subrange(8, 16), i).len() == 4);
}

} // verus!
