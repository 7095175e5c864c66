use bcdecode::bc::{
    bc1_mode, bc4_mode, decode_bc1_block, decode_bc2_block, decode_bc3_block,
    decode_bc4_signed_block, decode_bc4_unsigned_block, decode_bc5_signed_block,
    decode_bc5_unsigned_block, decode_bc7_block, Bc1Mode, Bc4Mode, DecodeError,
};

/// Index bytes that give pixel `i` the 2-bit index `i % 4`.
const BC1_RAMP: [u8; 4] = [0xe4, 0xe4, 0xe4, 0xe4];

/// Index bytes that give pixel `i` the 3-bit index `i % 8`.
const BC4_RAMP: [u8; 6] = [0x88, 0xc6, 0xfa, 0x88, 0xc6, 0xfa];

fn bc1_block(c0: u16, c1: u16, indexes: [u8; 4]) -> [u8; 8] {
    let a = c0.to_le_bytes();
    let b = c1.to_le_bytes();
    [a[0], a[1], b[0], b[1], indexes[0], indexes[1], indexes[2], indexes[3]]
}

fn bc4_block(r0: u8, r1: u8, indexes: [u8; 6]) -> [u8; 8] {
    [r0, r1, indexes[0], indexes[1], indexes[2], indexes[3], indexes[4], indexes[5]]
}

fn join(first: [u8; 8], second: [u8; 8]) -> [u8; 16] {
    let mut block = [0u8; 16];
    block[..8].copy_from_slice(&first);
    block[8..].copy_from_slice(&second);
    block
}

#[test]
fn bc1_mode_follows_raw_order() {
    assert_eq!(bc1_mode(2, 1), Bc1Mode::FourColor);
    assert_eq!(bc1_mode(1, 2), Bc1Mode::ThreeColor);
    assert_eq!(bc1_mode(7, 7), Bc1Mode::ThreeColor);
    assert_eq!(bc4_mode(1, 0), Bc4Mode::SixInterpolated);
    assert_eq!(bc4_mode(0, 0), Bc4Mode::FourInterpolated);
}

#[test]
fn bc1_four_color_palette() {
    let pixels = decode_bc1_block(bc1_block(0xffff, 0x0000, BC1_RAMP));
    let palette = [[255, 255, 255, 255], [0, 0, 0, 255], [170, 170, 170, 255], [85, 85, 85, 255]];
    for i in 0..16 {
        assert_eq!(pixels[i], palette[i % 4]);
    }
}

#[test]
fn bc1_three_color_palette() {
    let pixels = decode_bc1_block(bc1_block(0x0000, 0xffff, BC1_RAMP));
    let palette = [[0, 0, 0, 255], [255, 255, 255, 255], [128, 128, 128, 255], [0, 0, 0, 0]];
    for i in 0..16 {
        assert_eq!(pixels[i], palette[i % 4]);
    }
}

#[test]
fn bc1_equal_references_give_three_equal_colors_and_transparent() {
    let pixels = decode_bc1_block(bc1_block(0x1234, 0x1234, BC1_RAMP));
    assert_eq!(bc1_mode(0x1234, 0x1234), Bc1Mode::ThreeColor);
    assert_eq!(pixels[0], [16, 69, 165, 255]);
    assert_eq!(pixels[1], pixels[0]);
    assert_eq!(pixels[2], pixels[0]);
    assert_eq!(pixels[3], [0, 0, 0, 0]);
}

#[test]
fn bc1_index_order_is_least_significant_first() {
    // Only pixel 5 (second pair of byte 5) takes index 1.
    let pixels = decode_bc1_block(bc1_block(0xffff, 0x0000, [0, 0b0000_0100, 0, 0]));
    for i in 0..16 {
        let expected = if i == 5 { [0, 0, 0, 255] } else { [255, 255, 255, 255] };
        assert_eq!(pixels[i], expected);
    }
}

#[test]
fn bc4_unsigned_six_way_palette() {
    let pixels = decode_bc4_unsigned_block(bc4_block(255, 0, BC4_RAMP));
    let palette: [u8; 8] = [255, 0, 219, 182, 146, 109, 73, 36];
    for i in 0..16 {
        assert_eq!(pixels[i], [palette[i % 8]]);
    }
}

#[test]
fn bc4_unsigned_four_way_palette() {
    let pixels = decode_bc4_unsigned_block(bc4_block(0, 255, BC4_RAMP));
    let palette: [u8; 8] = [0, 255, 51, 102, 153, 204, 0, 255];
    for i in 0..16 {
        assert_eq!(pixels[i], [palette[i % 8]]);
    }
}

#[test]
fn bc4_index_crosses_byte_boundaries() {
    // Pixel 2 takes bits 6..9 of the first group (index 7), pixel 10 those of the second (index 5).
    let pixels = decode_bc4_unsigned_block(bc4_block(255, 0, [0b1100_0000, 0b01, 0, 0b0100_0000, 0b01, 0]));
    for i in 0..16 {
        let expected = match i {
            2 => 36,
            10 => 109,
            _ => 255,
        };
        assert_eq!(pixels[i], [expected]);
    }
}

#[test]
fn bc4_signed_six_way_palette() {
    let pixels = decode_bc4_signed_block(bc4_block(0, 128, BC4_RAMP));
    let palette: [u8; 8] = [128, 0, 109, 91, 73, 55, 36, 18];
    for i in 0..16 {
        assert_eq!(pixels[i], [palette[i % 8]]);
    }
    // The unsigned path on the converted references rounds one slot differently.
    let unsigned = decode_bc4_unsigned_block(bc4_block(128, 0, BC4_RAMP));
    assert_eq!(unsigned[2], [110]);
}

#[test]
fn bc4_signed_four_way_palette() {
    let pixels = decode_bc4_signed_block(bc4_block(129, 127, BC4_RAMP));
    let palette: [u8; 8] = [0, 255, 51, 102, 153, 204, 0, 255];
    for i in 0..16 {
        assert_eq!(pixels[i], [palette[i % 8]]);
    }
}

#[test]
fn bc2_explicit_alpha_nibbles() {
    let alpha = [0x10, 0x32, 0x54, 0x76, 0x98, 0xba, 0xdc, 0xfe];
    let pixels = decode_bc2_block(join(alpha, bc1_block(0xffff, 0x0000, [0; 4])));
    for i in 0..16 {
        assert_eq!(pixels[i], [255, 255, 255, 17 * i as u8]);
    }
}

#[test]
fn bc3_all_ones_alpha_is_opaque() {
    let pixels = decode_bc3_block(join([0xff; 8], bc1_block(0x0000, 0xffff, BC1_RAMP)));
    for i in 0..16 {
        assert_eq!(pixels[i][3], 255);
    }
    assert_eq!(pixels[2], [128, 128, 128, 255]);
}

#[test]
fn bc3_interpolated_alpha() {
    let pixels = decode_bc3_block(join(bc4_block(255, 0, BC4_RAMP), bc1_block(0xffff, 0x0000, [0; 4])));
    let alpha: [u8; 8] = [255, 0, 219, 182, 146, 109, 73, 36];
    for i in 0..16 {
        assert_eq!(pixels[i], [255, 255, 255, alpha[i % 8]]);
    }
}

#[test]
fn bc5_unsigned_channels() {
    let pixels = decode_bc5_unsigned_block(join(bc4_block(255, 0, BC4_RAMP), bc4_block(0, 255, BC4_RAMP)));
    let red: [u8; 8] = [255, 0, 219, 182, 146, 109, 73, 36];
    let green: [u8; 8] = [0, 255, 51, 102, 153, 204, 0, 255];
    for i in 0..16 {
        assert_eq!(pixels[i], [red[i % 8], green[i % 8], 0]);
    }
}

#[test]
fn bc5_signed_channels() {
    let pixels = decode_bc5_signed_block(join(bc4_block(0, 128, BC4_RAMP), bc4_block(129, 127, BC4_RAMP)));
    let red: [u8; 8] = [128, 0, 109, 91, 73, 55, 36, 18];
    let green: [u8; 8] = [0, 255, 51, 102, 153, 204, 0, 255];
    for i in 0..16 {
        assert_eq!(pixels[i], [red[i % 8], green[i % 8], 128]);
    }
}

#[test]
fn bc7_is_refused() {
    assert_eq!(decode_bc7_block([0; 16]), Err(DecodeError::UnsupportedFormat));
    assert_eq!(decode_bc7_block([0xff; 16]), Err(DecodeError::UnsupportedFormat));
}
