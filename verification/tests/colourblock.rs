use squish::colourblock::{
    decompress, expand_5_bits, expand_6_bits, pack_565, unpack_565, write3, write4,
};

#[test]
fn colour_block_with_four_colours() {
    // endpoints 0xFCA9 > 0xFB45: entries at one and two thirds
    let block = [0xA9, 0xFC, 0x45, 0xFB, 0b1110_0100, 0, 0, 0];
    let rgba = decompress(&block, true);
    assert_eq!(rgba[0], [255, 150, 74, 255]);
    assert_eq!(rgba[1], [255, 105, 41, 255]);
    assert_eq!(rgba[2], [255, 135, 63, 255]);
    assert_eq!(rgba[3], [255, 120, 52, 255]);
    assert_eq!(rgba[4], [255, 150, 74, 255]);
}

#[test]
fn colour_block_with_three_colours_and_transparent_black() {
    // endpoints 0xFB45 <= 0xFCA9: entry half way, and transparent black
    let block = [0x45, 0xFB, 0xA9, 0xFC, 0b1110_0100, 0, 0, 0];
    let rgba = decompress(&block, true);
    assert_eq!(rgba[0], [255, 105, 41, 255]);
    assert_eq!(rgba[1], [255, 150, 74, 255]);
    assert_eq!(rgba[2], [255, 127, 57, 255]);
    assert_eq!(rgba[3], [0, 0, 0, 0]);
}

#[test]
fn colour_block_without_the_palette_of_three() {
    let block = [0x45, 0xFB, 0xA9, 0xFC, 0b1110_0100, 0, 0, 0];
    let rgba = decompress(&block, false);
    assert_eq!(rgba[0], [255, 105, 41, 255]);
    assert_eq!(rgba[1], [255, 150, 74, 255]);
    assert_eq!(rgba[2], [255, 120, 52, 255]);
    assert_eq!(rgba[3], [255, 135, 63, 255]);
}

#[test]
fn colour_block_with_equal_endpoints() {
    let block = [0x45, 0xFB, 0x45, 0xFB, 0b1110_0100, 0, 0, 0];
    let rgba = decompress(&block, true);
    assert_eq!(rgba[0], [255, 105, 41, 255]);
    assert_eq!(rgba[1], [255, 105, 41, 255]);
    assert_eq!(rgba[2], [255, 105, 41, 255]);
    assert_eq!(rgba[3], [0, 0, 0, 0]);
}

#[test]
fn endpoints_repeat_their_leading_bits() {
    // red 1, green 1, blue 1 and red 16, green 32, blue 16
    let block = [0x21, 0x08, 0x10, 0x84, 0b0000_0100, 0, 0, 0];
    let rgba = decompress(&block, false);
    assert_eq!(rgba[0], [8, 4, 8, 255]);
    assert_eq!(rgba[1], [132, 130, 132, 255]);
}

fn indices() -> [u8; 16] {
    [0, 1, 2, 3, 3, 2, 1, 0, 0, 0, 1, 1, 2, 2, 3, 3]
}

#[test]
fn write4_keeps_ordered_endpoints() {
    let mut block = [0u8; 8];
    write4(0xFCA9, 0xFB45, &indices(), &mut block);
    assert_eq!(block, [0xA9, 0xFC, 0x45, 0xFB, 0xE4, 0x1B, 0x50, 0xFA]);
}

#[test]
fn write4_swaps_endpoints_and_mirrors_indices() {
    let mut block = [0u8; 8];
    write4(0xFB45, 0xFCA9, &indices(), &mut block);
    assert_eq!(block, [0xA9, 0xFC, 0x45, 0xFB, 0xB1, 0x4E, 0x05, 0xAF]);
    // both blocks decode to the same colours with the endpoints exchanged
    let swapped = decompress(&block, true);
    let mut direct = [0u8; 8];
    write4(0xFCA9, 0xFB45, &[1, 0, 3, 2, 2, 3, 0, 1, 1, 1, 0, 0, 3, 3, 2, 2], &mut direct);
    assert_eq!(decompress(&direct, true), swapped);
}

#[test]
fn write4_of_equal_endpoints_uses_index_0() {
    let mut block = [0xEEu8; 8];
    write4(0x1234, 0x1234, &indices(), &mut block);
    assert_eq!(block, [0x34, 0x12, 0x34, 0x12, 0, 0, 0, 0]);
}

#[test]
fn write3_keeps_ordered_endpoints() {
    let mut block = [0u8; 8];
    write3(0xFB45, 0xFCA9, &indices(), &mut block);
    assert_eq!(block, [0x45, 0xFB, 0xA9, 0xFC, 0xE4, 0x1B, 0x50, 0xFA]);
    let mut equal = [0u8; 8];
    write3(0x1234, 0x1234, &indices(), &mut equal);
    assert_eq!(equal, [0x34, 0x12, 0x34, 0x12, 0xE4, 0x1B, 0x50, 0xFA]);
}

#[test]
fn write3_swaps_endpoints_and_exchanges_their_indices() {
    let mut block = [0u8; 8];
    write3(0xFCA9, 0xFB45, &indices(), &mut block);
    assert_eq!(block, [0x45, 0xFB, 0xA9, 0xFC, 0xE1, 0x4B, 0x05, 0xFA]);
    let rgba = decompress(&block, true);
    assert_eq!(rgba[0], [255, 150, 74, 255]);
    assert_eq!(rgba[1], [255, 105, 41, 255]);
    assert_eq!(rgba[2], [255, 127, 57, 255]);
    assert_eq!(rgba[3], [0, 0, 0, 0]);
}

#[test]
fn colours_of_16_bits() {
    assert_eq!(expand_5_bits(0), 0);
    assert_eq!(expand_5_bits(1), 8);
    assert_eq!(expand_5_bits(15), 123);
    assert_eq!(expand_5_bits(16), 132);
    assert_eq!(expand_5_bits(31), 255);
    assert_eq!(expand_6_bits(1), 4);
    assert_eq!(expand_6_bits(37), 150);
    assert_eq!(expand_6_bits(63), 255);
    assert_eq!(pack_565(31, 37, 9), 0xFCA9);
    assert_eq!(unpack_565(0xFCA9), [255, 150, 74]);
    assert_eq!(unpack_565(0x0000), [0, 0, 0]);
    assert_eq!(pack_565(31, 63, 31), 0xFFFF);
}
