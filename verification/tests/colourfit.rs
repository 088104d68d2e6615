use squish::block::{Decoder, Encoder, Format};
use squish::colourfit::{compress_bc1_bc2_bc3_colour_block, single_colour_fit, ColourFit};
use squish::colourset::ColourSet;
use squish::singlecolourlookup::{lookup_5_3, lookup_5_4, lookup_6_3, lookup_6_4};
use squish::{Algorithm, Params, BC1, BC2, BC3, COLOUR_WEIGHTS_PERCEPTUAL, COLOUR_WEIGHTS_UNIFORM};

fn no_fitter(_: &ColourSet, _: Params, _: bool) -> ColourFit {
    panic!("a tile of one colour needs no fitter")
}

fn params(algorithm: Algorithm) -> Params {
    Params { algorithm, weights: COLOUR_WEIGHTS_UNIFORM, weigh_colour_by_alpha: false }
}

#[test]
fn default_parameters() {
    let params = Params::default();
    assert!(params.algorithm == Algorithm::ClusterFit);
    assert!(Algorithm::default() == Algorithm::ClusterFit);
    assert_eq!(params.weights, COLOUR_WEIGHTS_PERCEPTUAL);
    assert_eq!(params.weights, [2126, 7152, 722]);
    assert_eq!(COLOUR_WEIGHTS_UNIFORM, [10000, 10000, 10000]);
    assert!(!params.weigh_colour_by_alpha);
}

#[test]
fn a_fit_needs_indices_below_4() {
    let mut indices = [0u8; 16];
    indices[5] = 3;
    let fit = ColourFit::new(0x1234, 0xABCD, indices, true).unwrap();
    assert_eq!(fit.start(), 0x1234);
    assert_eq!(fit.end(), 0xABCD);
    assert_eq!(fit.indices(), indices);
    assert!(fit.is_three_colour());
    indices[15] = 4;
    assert!(ColourFit::new(0x1234, 0xABCD, indices, true).is_none());
}

#[test]
fn tables_hold_the_nearest_endpoints() {
    // target 0: both answers are exact
    assert_eq!(lookup_5_3(0), 0);
    // target 127 with 5 bits: 15 expands to 123, and 0 with 31 meet at 127
    assert_eq!(lookup_5_3(127), 0x0F_00_1F_4_0);
    assert_eq!(lookup_6_3(127), 0x1F_00_3F_2_0);
    assert_eq!(lookup_5_4(127), 0x0F_0A_1B_4_1);
    assert_eq!(lookup_6_4(127), 0x1F_10_3E_2_0);
    assert_eq!(lookup_5_3(255), 0x1F_1F_1F_0_0);
    assert_eq!(lookup_6_4(255), 0x3F_3F_3F_0_0);
}

#[test]
fn single_colour_fit_of_a_colour_on_the_grid() {
    let fit = single_colour_fit([255, 150, 74], true, false);
    assert_eq!(fit.start(), 0xFCA9);
    assert_eq!(fit.end(), 0);
    assert_eq!(fit.indices(), [0; 16]);
    assert!(fit.is_three_colour());
    let fit = single_colour_fit([255, 150, 74], false, false);
    assert_eq!(fit.start(), 0xFCA9);
    assert_eq!(fit.end(), 0);
    assert!(!fit.is_three_colour());
}

#[test]
fn single_colour_fit_prefers_the_nearer_palette() {
    // grey 127 lies half way between black and white
    let fit = single_colour_fit([127, 127, 127], true, false);
    assert_eq!((fit.start(), fit.end()), (0x0000, 0xFFFF));
    assert_eq!(fit.indices(), [2; 16]);
    assert!(fit.is_three_colour());
    // grey 100 lies nearer to an entry of the palette of four colours
    let fit = single_colour_fit([100, 100, 100], true, false);
    assert_eq!((fit.start(), fit.end()), (0x19C3, 0xFDFF));
    assert_eq!(fit.indices(), [2; 16]);
    assert!(!fit.is_three_colour());
    // but a transparent tile needs the palette of three colours
    let fit = single_colour_fit([100, 100, 100], true, true);
    assert!(fit.is_three_colour());
}

fn solid(colour: [u8; 3]) -> [[u8; 4]; 16] {
    [[colour[0], colour[1], colour[2], 255]; 16]
}

fn colour_block(rgba: &[[u8; 4]; 16], mask: u32, algorithm: Algorithm, is_bc1: bool) -> [u8; 8] {
    let mut block = [0xEEu8; 8];
    compress_bc1_bc2_bc3_colour_block(rgba, mask, params(algorithm), &no_fitter, &mut block, is_bc1);
    block
}

#[test]
fn blocks_of_one_colour() {
    let cases: [([u8; 3], [u8; 8], [u8; 8]); 5] = [
        (
            [255, 150, 74],
            [0x00, 0x00, 0xA9, 0xFC, 0x55, 0x55, 0x55, 0x55],
            [0xA9, 0xFC, 0x00, 0x00, 0x00, 0x00, 0x00, 0x00],
        ),
        ([0, 0, 0], [0; 8], [0; 8]),
        (
            [1, 2, 3],
            [0x00, 0x00, 0x21, 0x00, 0xAA, 0xAA, 0xAA, 0xAA],
            [0x41, 0x08, 0x00, 0x00, 0xFF, 0xFF, 0xFF, 0xFF],
        ),
        (
            [100, 100, 100],
            [0xFF, 0xFD, 0xC3, 0x19, 0xFF, 0xFF, 0xFF, 0xFF],
            [0xFF, 0xFD, 0xC3, 0x19, 0xFF, 0xFF, 0xFF, 0xFF],
        ),
        (
            [12, 200, 7],
            [0x80, 0x04, 0xE2, 0x1F, 0xAA, 0xAA, 0xAA, 0xAA],
            [0x83, 0x2E, 0x00, 0x06, 0xFF, 0xFF, 0xFF, 0xFF],
        ),
    ];
    for (colour, with_three, with_four) in cases {
        assert_eq!(colour_block(&solid(colour), 0xFFFF, Algorithm::ClusterFit, true), with_three);
        assert_eq!(colour_block(&solid(colour), 0xFFFF, Algorithm::ClusterFit, false), with_four);
    }
}

#[test]
fn blocks_of_one_colour_do_not_depend_on_the_algorithm() {
    for colour in [[255, 150, 74], [1, 2, 3], [100, 100, 100], [12, 200, 7], [127, 127, 127]] {
        for is_bc1 in [true, false] {
            let cluster = colour_block(&solid(colour), 0xFFFF, Algorithm::ClusterFit, is_bc1);
            let range = colour_block(&solid(colour), 0xFFFF, Algorithm::RangeFit, is_bc1);
            let iterative =
                colour_block(&solid(colour), 0xFFFF, Algorithm::IterativeClusterFit, is_bc1);
            assert_eq!(cluster, range);
            assert_eq!(cluster, iterative);
        }
    }
}

#[test]
fn masked_pixels_of_a_block_of_one_colour_get_index_3() {
    let block = colour_block(&solid([12, 200, 7]), 0x0F0F, Algorithm::ClusterFit, true);
    assert_eq!(block, [0x80, 0x04, 0xE2, 0x1F, 0xAA, 0xFF, 0xAA, 0xFF]);
}

#[test]
fn blocks_without_colours() {
    // no pixel is enabled
    assert_eq!(
        colour_block(&solid([9, 9, 9]), 0, Algorithm::ClusterFit, true),
        [0, 0, 0, 0, 0xFF, 0xFF, 0xFF, 0xFF]
    );
    assert_eq!(colour_block(&solid([9, 9, 9]), 0, Algorithm::RangeFit, false), [0; 8]);
    // every pixel is transparent
    let rgba = [[9u8, 9, 9, 0]; 16];
    let block = colour_block(&rgba, 0xFFFF, Algorithm::IterativeClusterFit, true);
    assert_eq!(block, [0, 0, 0, 0, 0xFF, 0xFF, 0xFF, 0xFF]);
    assert_eq!(BC1::decompress_block(&block), [[0u8; 4]; 16]);
}

#[test]
fn the_fitter_is_asked_about_two_or_more_colours() {
    let mut rgba = solid([255, 0, 0]);
    rgba[5] = [0, 0, 255, 255];
    rgba[6] = [0, 0, 255, 0];
    let fitter = |set: &ColourSet, params: Params, is_bc1: bool| {
        assert_eq!(set.count(), 2);
        assert_eq!(set.point(0), [255, 0, 0]);
        assert_eq!(set.point(1), [0, 0, 255]);
        assert!(set.is_transparent());
        assert!(params.algorithm == Algorithm::RangeFit);
        assert!(is_bc1);
        let mut indices = [0u8; 16];
        indices[1] = 1;
        // the fit asks for four colours, but transparency needs three
        ColourFit::new(0xF800, 0x001F, indices, false).unwrap()
    };
    let mut block = [0u8; 8];
    compress_bc1_bc2_bc3_colour_block(
        &rgba,
        0xFFFF,
        params(Algorithm::RangeFit),
        &fitter,
        &mut block,
        true,
    );
    // the endpoints are swapped to have the smaller one first
    assert_eq!(block, [0x1F, 0x00, 0x00, 0xF8, 0x55, 0x71, 0x55, 0x55]);
    let decoded = BC1::decompress_block(&block);
    assert_eq!(decoded[0], [255, 0, 0, 255]);
    assert_eq!(decoded[5], [0, 0, 255, 255]);
    assert_eq!(decoded[6], [0, 0, 0, 0]);
}

#[test]
fn solid_tiles_come_back_within_4() {
    let mut colour = [0u8, 85, 170];
    for _ in 0..256 {
        let rgba = solid(colour);
        let mut block8 = [0u8; 8];
        BC1::compress_block_masked(rgba, 0xFFFF, params(Algorithm::ClusterFit), &no_fitter, &mut block8);
        let mut block16 = [0u8; 16];
        BC2::compress_block_masked(rgba, 0xFFFF, params(Algorithm::RangeFit), &no_fitter, &mut block16);
        let bc2 = BC2::decompress_block(&block16);
        BC3::compress_block_masked(rgba, 0xFFFF, params(Algorithm::RangeFit), &no_fitter, &mut block16);
        let bc3 = BC3::decompress_block(&block16);
        for decoded in [BC1::decompress_block(&block8), bc2, bc3] {
            for pixel in decoded {
                for c in 0..3 {
                    assert!((pixel[c] as i32 - colour[c] as i32).abs() <= 4);
                }
                assert_eq!(pixel[3], 255);
            }
        }
        colour = [colour[0].wrapping_add(1), colour[1].wrapping_add(7), colour[2].wrapping_add(13)];
    }
    assert_eq!(BC1::block_size(), 8);
    assert_eq!(BC2::block_size(), 16);
    assert_eq!(BC3::block_size(), 16);
}
