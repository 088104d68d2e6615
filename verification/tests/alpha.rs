use squish::alpha::{compress_bc2, compress_bc3, decompress_bc2, decompress_bc3};

fn tile_with_channel(channel: usize, values: [u8; 16]) -> [[u8; 4]; 16] {
    let mut rgba = [[0u8; 4]; 16];
    for i in 0..16 {
        rgba[i][channel] = values[i];
    }
    rgba
}

fn channel_of(rgba: &[[u8; 4]; 16], channel: usize) -> [u8; 16] {
    let mut values = [0u8; 16];
    for i in 0..16 {
        values[i] = rgba[i][channel];
    }
    values
}

fn steps_of_17() -> [u8; 16] {
    let mut values = [0u8; 16];
    for i in 0..16 {
        values[i] = 17 * i as u8;
    }
    values
}

#[test]
fn explicit_alpha_packs_two_pixels_per_byte() {
    let rgba = tile_with_channel(3, steps_of_17());
    let mut block = [0u8; 8];
    compress_bc2(&rgba, 0xFFFF, &mut block);
    assert_eq!(block, [0x10, 0x32, 0x54, 0x76, 0x98, 0xBA, 0xDC, 0xFE]);
}

#[test]
fn explicit_alpha_rounds_to_the_nearest_level() {
    // 8 * 15 + 127 = 247 < 255, 9 * 15 + 127 = 262 >= 255
    let mut values = [0u8; 16];
    values[0] = 8;
    values[1] = 9;
    values[2] = 25;
    values[3] = 26;
    values[4] = 246;
    values[5] = 247;
    values[6] = 127;
    values[7] = 128;
    let rgba = tile_with_channel(3, values);
    let mut block = [0u8; 8];
    compress_bc2(&rgba, 0xFFFF, &mut block);
    assert_eq!(block, [0x10, 0x21, 0xFE, 0x87, 0, 0, 0, 0]);
}

#[test]
fn explicit_alpha_of_masked_pixels_is_zero() {
    let rgba = tile_with_channel(3, [255; 16]);
    let mut block = [0u8; 8];
    compress_bc2(&rgba, 0b0110_0000_0000_1001, &mut block);
    assert_eq!(block, [0x0F, 0xF0, 0, 0, 0, 0, 0xF0, 0x0F]);
}

#[test]
fn explicit_alpha_unpacks_to_multiples_of_17() {
    let mut rgba = [[1u8, 2, 3, 4]; 16];
    decompress_bc2(&mut rgba, &[0x10, 0x32, 0x54, 0x76, 0x98, 0xBA, 0xDC, 0xFE]);
    assert_eq!(channel_of(&rgba, 3), steps_of_17());
    // the colours stay
    for pixel in rgba {
        assert_eq!(pixel[..3], [1, 2, 3]);
    }
}

#[test]
fn gradient_decodes_six_values_in_between() {
    // first endpoint larger: 255, 0, then 6/7, 5/7, ... of the way down
    let block = [0xFF, 0x00, 0x88, 0xC6, 0xFA, 0x88, 0xC6, 0xFA];
    let mut rgba = [[9u8; 4]; 16];
    decompress_bc3(&mut rgba, 0, &block);
    let expected = [255, 0, 218, 182, 145, 109, 72, 36];
    assert_eq!(channel_of(&rgba, 0)[..8], expected);
    assert_eq!(channel_of(&rgba, 0)[8..], expected);
    assert_eq!(channel_of(&rgba, 1), [9; 16]);
    assert_eq!(channel_of(&rgba, 3), [9; 16]);
}

#[test]
fn gradient_decodes_four_values_in_between_and_both_extremes() {
    // first endpoint not larger: 10, 110, then 30, 50, 70, 90, 0, 255
    let block = [10, 110, 0x88, 0xC6, 0xFA, 0x88, 0xC6, 0xFA];
    let mut rgba = [[0u8; 4]; 16];
    decompress_bc3(&mut rgba, 2, &block);
    let expected = [10, 110, 30, 50, 70, 90, 0, 255];
    assert_eq!(channel_of(&rgba, 2)[..8], expected);
    assert_eq!(channel_of(&rgba, 2)[8..], expected);
}

#[test]
fn gradient_of_equal_endpoints_has_the_fixed_entries() {
    let block = [77, 77, 0x88, 0xC6, 0xFA, 0x88, 0xC6, 0xFA];
    let mut rgba = [[0u8; 4]; 16];
    decompress_bc3(&mut rgba, 3, &block);
    assert_eq!(channel_of(&rgba, 3)[..8], [77, 77, 77, 77, 77, 77, 0, 255]);
}

#[test]
fn gradient_of_a_wide_ramp_uses_seven_intervals() {
    let rgba = tile_with_channel(3, steps_of_17());
    let mut block = [0u8; 8];
    compress_bc3(&rgba, 3, 0xFFFF, &mut block);
    assert_eq!(block, [0xFF, 0x00, 0xC9, 0x6F, 0xB7, 0xE4, 0x26, 0x01]);
    let mut decoded = [[0u8; 4]; 16];
    decompress_bc3(&mut decoded, 3, &block);
    assert_eq!(
        channel_of(&decoded, 3),
        [0, 0, 36, 36, 72, 72, 109, 109, 145, 145, 182, 182, 218, 218, 255, 255]
    );
}

#[test]
fn gradient_of_a_narrow_ramp() {
    let mut values = [0u8; 16];
    for i in 0..16 {
        values[i] = 100 + i as u8;
    }
    let rgba = tile_with_channel(1, values);
    let mut block = [0u8; 8];
    compress_bc3(&rgba, 1, 0xFFFF, &mut block);
    assert_eq!(block, [0x73, 0x64, 0xC9, 0x6F, 0xB7, 0xE4, 0x26, 0x01]);
}

#[test]
fn gradient_of_extremes_keeps_every_value() {
    let mut values = [0u8; 16];
    for i in 0..16 {
        values[i] = if i % 2 == 0 { 0 } else { 255 };
    }
    let rgba = tile_with_channel(3, values);
    let mut block = [0u8; 8];
    compress_bc3(&rgba, 3, 0xFFFF, &mut block);
    assert_eq!(block, [0x00, 0x05, 0x38, 0x8E, 0xE3, 0x38, 0x8E, 0xE3]);
    assert!(block[0] <= block[1]);
    let mut decoded = [[0u8; 4]; 16];
    decompress_bc3(&mut decoded, 3, &block);
    assert_eq!(channel_of(&decoded, 3), values);
}

#[test]
fn gradient_of_extremes_and_few_values_in_between_keeps_every_value() {
    let values = [0, 255, 100, 102, 105, 0, 255, 103, 100, 101, 104, 0, 0, 255, 255, 100];
    let rgba = tile_with_channel(3, values);
    let mut block = [0u8; 8];
    compress_bc3(&rgba, 3, 0xFFFF, &mut block);
    assert_eq!(block, [0x64, 0x69, 0x3E, 0x16, 0x9F, 0x50, 0xED, 0x1F]);
    assert!(block[0] <= block[1]);
    let mut decoded = [[0u8; 4]; 16];
    decompress_bc3(&mut decoded, 3, &block);
    assert_eq!(channel_of(&decoded, 3), values);
}

#[test]
fn gradient_of_one_value() {
    let rgba = tile_with_channel(0, [77; 16]);
    let mut block = [0xEEu8; 8];
    compress_bc3(&rgba, 0, 0xFFFF, &mut block);
    assert_eq!(block, [0x4D, 0x52, 0, 0, 0, 0, 0, 0]);
}

#[test]
fn gradient_ignores_masked_pixels() {
    let mut values = [0u8; 16];
    for i in 0..16 {
        values[i] = 100 + i as u8;
    }
    let rgba = tile_with_channel(0, values);
    let mut block = [0u8; 8];
    compress_bc3(&rgba, 0, 0x00FF, &mut block);
    assert_eq!(block, [0x6B, 0x64, 0xB9, 0xCB, 0x09, 0x49, 0x92, 0x24]);
    // other values behind the mask give the same block
    let mut other = values;
    for i in 8..16 {
        other[i] = 3 * i as u8;
    }
    let mut second = [0u8; 8];
    compress_bc3(&tile_with_channel(0, other), 0, 0x00FF, &mut second);
    assert_eq!(second, block);
    let mut decoded = [[0u8; 4]; 16];
    decompress_bc3(&mut decoded, 0, &block);
    assert_eq!(channel_of(&decoded, 0)[..8], values[..8]);
}

#[test]
fn gradient_of_no_pixel() {
    let rgba = tile_with_channel(0, [200; 16]);
    let mut block = [0xEEu8; 8];
    compress_bc3(&rgba, 0, 0, &mut block);
    assert_eq!(block, [0x00, 0x05, 0, 0, 0, 0, 0, 0]);
}
