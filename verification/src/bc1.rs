//! BC1: colour with optional 1-bit alpha, stored as one colour block.

use vstd::prelude::*;
use crate::block;
use crate::colourblock::{decoded_colours, decompress};
use crate::colourfit::{colour_block_encodes, compress_bc1_bc2_bc3_colour_block, ColourFit};
use crate::colourset::ColourSet;
use crate::{Decoder, Encoder, Params};

verus! {

/// The BC1 format: blocks of 8 bytes that hold colour, and one bit of alpha
/// per pixel where a block uses the palette of three colours.
pub struct BC1 {}

impl block::Format for BC1 {
    open spec fn block_len() -> nat {
        8
    }

    proof fn block_len_is_8_or_16() {
    }

    fn block_size() -> (n: usize) {
        8
    }
}

impl block::Decoder for BC1 {
    /// The pixels of the colour block, which may use the palette of three
    /// colours and transparent black.
    open spec fn decoded(block: Seq<u8>) -> Seq<Seq<u8>> {
        decoded_colours(block, true)
    }

    fn decompress_block(block: &[u8]) -> (rgba: [[u8; 4]; 16]) {
        // decompress colour block
        decompress(block, true)
    }
}

impl Decoder for BC1 {

}

impl block::Encoder for BC1 {
    /// The block is the colour block of the tile. Pixels with alpha below
    /// 128 are stored as transparent.
    open spec fn encodes(
        tile: Seq<Seq<u8>>,
        mask: u32,
        params: Params,
        fits: spec_fn(ColourSet, Params, bool, ColourFit) -> bool,
        bytes: Seq<u8>,
    ) -> bool {
        colour_block_encodes(tile, mask, params, true, fits, bytes)
    }

    fn compress_block_masked<F: Fn(&ColourSet, Params, bool) -> ColourFit>(
        rgba: [[u8; 4]; 16],
        mask: u32,
        params: Params,
        fitter: &F,
        output: &mut [u8],
    ) {
        compress_bc1_bc2_bc3_colour_block(&rgba, mask, params, fitter, output, true)
    }
}

impl Encoder for BC1 {

}

} // verus!
