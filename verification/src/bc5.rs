//! BC5: two channels, stored as two gradient blocks.

use vstd::prelude::*;
use crate::alpha::{compress_bc3, decompress_bc3, gradient_block, gradient_values};
use crate::block;
use crate::colourfit::ColourFit;
use crate::colourset::ColourSet;
use crate::{Decoder, Encoder, Params};

verus! {

/// The BC5 format: blocks of 16 bytes that hold the red and the green
/// channel as gradients.
pub struct BC5 {}

impl block::Format for BC5 {
    open spec fn block_len() -> nat {
        16
    }

    proof fn block_len_is_8_or_16() {
    }

    fn block_size() -> (n: usize) {
        16
    }
}

impl block::Decoder for BC5 {
    /// Red comes from the first gradient block and green from the second;
    /// blue is zero, and every pixel is opaque.
    open spec fn decoded(block: Seq<u8>) -> Seq<Seq<u8>> {
        Seq::new(
            16,
            |i: int|
                seq![
                    gradient_values(block.subrange(0, 8))[i],
                    gradient_values(block.subrange(8, 16))[i],
                    0u8,
                    255u8,
                ],
        )
    }

    fn decompress_block(block: &[u8]) -> (rgba: [[u8; 4]; 16]) {
        // decompress the two gradients into the red and green channels
        let mut rgba = [[0u8; 4]; 16];
        decompress_bc3(&mut rgba, 0, &block[0..8]);
        decompress_bc3(&mut rgba, 1, &block[8..16]);
        let ghost want = Self::decoded(block@);
        let mut i: usize = 0;
        while i < 16
            invariant
                i <= 16,
                block.len() == 16,
                want == Self::decoded(block@),
                forall|k: int| 0 <= k < i ==> (#[trigger] rgba[k])@ == want[k],
                forall|k: int|
                    i <= k < 16 ==> (#[trigger] rgba[k])[0] == gradient_values(
                        block@.subrange(0, 8),
                    )[k],
                forall|k: int|
                    i <= k < 16 ==> (#[trigger] rgba[k])[1] == gradient_values(
                        block@.subrange(8, 16),
                    )[k],
            decreases 16 - i,
        {
            let red: u8 = rgba[i][0];
            let green: u8 = rgba[i][1];
            rgba[i] = [red, green, 0, 255];
            assert(rgba[i as int]@ =~= want[i as int]);
            i += 1;
        }
        assert(crate::tile::tile_view(rgba) =~= want);
        rgba
    }
}

impl Decoder for BC5 {

}

impl block::Encoder for BC5 {
    /// The block is the gradient block of the red channel followed by that
    /// of the green channel. There are no colours to fit: the parameters do
    /// not matter, and the colour fitter is never asked.
    open spec fn encodes(
        tile: Seq<Seq<u8>>,
        mask: u32,
        params: Params,
        fits: spec_fn(ColourSet, Params, bool, ColourFit) -> bool,
        bytes: Seq<u8>,
    ) -> bool {
        bytes == gradient_block(tile, 0, mask) + gradient_block(tile, 1, mask)
    }

    fn compress_block_masked<F: Fn(&ColourSet, Params, bool) -> ColourFit>(
        rgba: [[u8; 4]; 16],
        mask: u32,
        _params: Params,
        _fitter: &F,
        output: &mut [u8],
    ) {
        // compress the red and the green channel
        let (red, green) = output.split_at_mut(8);
        compress_bc3(&rgba, 0, mask, red);
        compress_bc3(&rgba, 1, mask, green);
    }
}

impl Encoder for BC5 {

}

} // verus!
