use squish::{Decoder, Encoder, BC1, BC2, BC3};

#[test]
fn bc1_test_storage_requirements() {
    assert_eq!(BC1::compressed_size(16, 32), 256);
    assert_eq!(BC1::compressed_size(15, 32), 256);
}

#[test]
fn bc2_test_storage_requirements() {
    assert_eq!(BC2::compressed_size(16, 32), 512);
    assert_eq!(BC2::compressed_size(15, 32), 512);
}

#[test]
fn bc3_test_storage_requirements() {
    assert_eq!(BC3::compressed_size(16, 32), 512);
    assert_eq!(BC3::compressed_size(15, 32), 512);
}

// The test-pattern is a gray-scale chessboard of size 4x4 with 0xFF in the top-left.
// On top of that, the four middle pixels are set to 0x7F.
const DECODED_BLOCK_GRAY_4X4: [u8; 16] = [
    0xFF, 0x00, 0xFF, 0x00, // row 0
    0x00, 0x7F, 0x7F, 0xFF, // row 1
    0xFF, 0x7F, 0x7F, 0x00, // row 2
    0x00, 0xFF, 0x00, 0xFF, // row 3
];

fn decoded_block_gray_4x4_as_rgba() -> [u8; 4 * 4 * 4] {
    let mut output = [0u8; 4 * 4 * 4];
    for i in 0..DECODED_BLOCK_GRAY_4X4.len() {
        output[i * 4 + 0] = DECODED_BLOCK_GRAY_4X4[i]; // R
        output[i * 4 + 1] = DECODED_BLOCK_GRAY_4X4[i]; // G
        output[i * 4 + 2] = DECODED_BLOCK_GRAY_4X4[i]; // B
        output[i * 4 + 3] = 0xFF; //A
    }
    output
}

#[test]
fn test_bc1_decompression_gray() {
    let encoded: [u8; 8] = [0x00, 0x00, 0xFF, 0xFF, 0x11, 0x68, 0x29, 0x44];
    let mut output_actual = [0u8; 4 * 4 * 4];
    BC1::decompress(&encoded, 4, 4, &mut output_actual);
    assert_eq!(output_actual, decoded_block_gray_4x4_as_rgba());
}

// A colour test-pattern (RGB) with the first row in one colour,
// the second in another and the third and last row in a third colour.
const DECODED_BLOCK_COLOUR_4X4: [u8; 48] = [
    255, 150, 74, 255, 150, 74, 255, 150, 74, 255, 150, 74, // row 0
    255, 120, 52, 255, 120, 52, 255, 120, 52, 255, 120, 52, // row 1
    255, 105, 41, 255, 105, 41, 255, 105, 41, 255, 105, 41, // row 2
    255, 105, 41, 255, 105, 41, 255, 105, 41, 255, 105, 41, // row 3
];

const ENCODED_BLOCK_COLOUR_4X4: [u8; 8] = [0xA9, 0xFC, 0x45, 0xFB, 0x00, 0xFF, 0x55, 0x55];

fn decoded_block_colour_4x4_as_rgba() -> [u8; 4 * 4 * 4] {
    let mut output = [0u8; 4 * 4 * 4];
    for i in 0..4 * 4 {
        output[i * 4 + 0] = DECODED_BLOCK_COLOUR_4X4[i * 3 + 0]; // R
        output[i * 4 + 1] = DECODED_BLOCK_COLOUR_4X4[i * 3 + 1]; // G
        output[i * 4 + 2] = DECODED_BLOCK_COLOUR_4X4[i * 3 + 2]; // B
        output[i * 4 + 3] = 0xFF; //A
    }
    output
}

#[test]
fn test_bc1_decompression_colour() {
    let encoded: [u8; 8] = ENCODED_BLOCK_COLOUR_4X4;
    let mut output_actual = [0u8; 4 * 4 * 4];
    BC1::decompress(&encoded, 4, 4, &mut output_actual);
    assert_eq!(output_actual, decoded_block_colour_4x4_as_rgba());
}

// Same RGB colours as DECODED_BLOCK_COLOUR_4X4, with additional alpha channel.
// Alpha starts at 0x00, then increases by 0x11 for every pixel.
const DECODED_BLOCK_RGBA_4X4: [u8; 64] = [
    0xFF, 0x96, 0x4A, 0x00, 0xFF, 0x96, 0x4A, 0x11, // row 0, left half
    0xFF, 0x96, 0x4A, 0x22, 0xFF, 0x96, 0x4A, 0x33, // row 0, right half
    0xFF, 0x78, 0x34, 0x44, 0xFF, 0x78, 0x34, 0x55, // row 1, left half
    0xFF, 0x78, 0x34, 0x66, 0xFF, 0x78, 0x34, 0x77, // row 1, right half
    0xFF, 0x69, 0x29, 0x88, 0xFF, 0x69, 0x29, 0x99, // row 2, left half
    0xFF, 0x69, 0x29, 0xAA, 0xFF, 0x69, 0x29, 0xBB, // row 2, right half
    0xFF, 0x69, 0x29, 0xCC, 0xFF, 0x69, 0x29, 0xDD, // row 3, left half
    0xFF, 0x69, 0x29, 0xEE, 0xFF, 0x69, 0x29, 0xFF, // row 3, right half
];

// Combine the same alpha channel (BC2-compressed) with RGB from ENCODED_BLOCK_COLOUR_4X4.
const ENCODED_BC2_BLOCK_ALPHA_4X4: [u8; 16] = [
    0x10, 0x32, 0x54, 0x76, 0x98, 0xBA, 0xDC, 0xFE, // Alpha
    0xA9, 0xFC, 0x45, 0xFB, 0x00, 0xFF, 0x55, 0x55, // RGB block
];

#[test]
fn test_bc2_decompression_colour() {
    let encoded: [u8; 16] = ENCODED_BC2_BLOCK_ALPHA_4X4;
    let mut output_actual = [0u8; 4 * 4 * 4];
    BC2::decompress(&encoded, 4, 4, &mut output_actual);
    let output_expected = DECODED_BLOCK_RGBA_4X4;
    assert_eq!(output_actual, output_expected);
}
