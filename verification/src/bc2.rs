//! BC2: explicit 4-bit alpha, followed by a colour block.

use vstd::prelude::*;
use crate::alpha::{compress_bc2, decompress_bc2, explicit_alphas, explicit_block, with_channel};
use crate::block;
use crate::colourblock::{decoded_colours, decompress};
use crate::colourfit::{colour_block_encodes, compress_bc1_bc2_bc3_colour_block, ColourFit};
use crate::colourset::ColourSet;
use crate::{Decoder, Encoder, Params};

verus! {

/// The BC2 format: blocks of 16 bytes that hold 4 bits of alpha per pixel
/// and colour.
pub struct BC2 {}

impl block::Format for BC2 {
    open spec fn block_len() -> nat {
        16
    }

    proof fn block_len_is_8_or_16() {
    }

    fn block_size() -> (n: usize) {
        16
    }
}

impl block::Decoder for BC2 {
    /// The colours of the colour block in the second half, read with the
    /// palette of four colours, with the alpha values of the first half.
    open spec fn decoded(block: Seq<u8>) -> Seq<Seq<u8>> {
        with_channel(
            decoded_colours(block.subrange(8, 16), false),
            3,
            explicit_alphas(block.subrange(0, 8)),
        )
    }

    fn decompress_block(block: &[u8]) -> (rgba: [[u8; 4]; 16]) {
        // decompress colour block
        let mut rgba = decompress(&block[8..16], false);
        // decompress alpha block(s)
        decompress_bc2(&mut rgba, &block[0..8]);
        rgba
    }
}

impl Decoder for BC2 {

}

impl block::Encoder for BC2 {
    /// The first half is the explicit alpha block of the tile, the second
    /// half its colour block for the palette of four colours.
    open spec fn encodes(
        tile: Seq<Seq<u8>>,
        mask: u32,
        params: Params,
        fits: spec_fn(ColourSet, Params, bool, ColourFit) -> bool,
        bytes: Seq<u8>,
    ) -> bool {
        &&& bytes.len() == 16
        &&& bytes.subrange(0, 8) == explicit_block(tile, mask)
        &&& colour_block_encodes(tile, mask, params, false, fits, bytes.subrange(8, 16))
    }

    fn compress_block_masked<F: Fn(&ColourSet, Params, bool) -> ColourFit>(
        rgba: [[u8; 4]; 16],
        mask: u32,
        params: Params,
        fitter: &F,
        output: &mut [u8],
    ) {
        let (alpha_block, colour_block) = output.split_at_mut(8);
        compress_bc1_bc2_bc3_colour_block(&rgba, mask, params, fitter, colour_block, false);
        // compress alpha block(s)
        compress_bc2(&rgba, mask, alpha_block);
        let ghost alpha_bytes = alpha_block@;
        let ghost colour_bytes = colour_block@;
        proof {
            assert(output@ == alpha_bytes + colour_bytes);
            assert(output@.subrange(0, 8) =~= alpha_bytes);
            assert(output@.subrange(8, 16) =~= colour_bytes);
        }
    }
}

impl Encoder for BC2 {

}

} // verus!
