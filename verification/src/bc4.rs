//! BC4: one channel, stored as a gradient block.

use vstd::prelude::*;
use crate::alpha::{compress_bc3, decompress_bc3, gradient_block, gradient_values};
use crate::block;
use crate::colourfit::ColourFit;
use crate::colourset::ColourSet;
use crate::{Decoder, Encoder, Params};

verus! {

/// The BC4 format: blocks of 8 bytes that hold the red channel as a
/// gradient.
pub struct BC4 {}

impl block::Format for BC4 {
    open spec fn block_len() -> nat {
        8
    }

    proof fn block_len_is_8_or_16() {
    }

    fn block_size() -> (n: usize) {
        8
    }
}

impl block::Decoder for BC4 {
    /// Every pixel is grey with the value of the gradient block, and opaque.
    open spec fn decoded(block: Seq<u8>) -> Seq<Seq<u8>> {
        Seq::new(
            16,
            |i: int|
                seq![
                    gradient_values(block)[i],
                    gradient_values(block)[i],
                    gradient_values(block)[i],
                    255u8,
                ],
        )
    }

    fn decompress_block(block: &[u8]) -> (rgba: [[u8; 4]; 16]) {
        // decompress the gradient into the red channel
        let mut rgba = [[0u8; 4]; 16];
        decompress_bc3(&mut rgba, 0, block);
        // splat decompressed value into g and b channels
        let ghost want = Self::decoded(block@);
        let mut i: usize = 0;
        while i < 16
            invariant
                i <= 16,
                want == Self::decoded(block@),
                forall|k: int| 0 <= k < i ==> (#[trigger] rgba[k])@ == want[k],
                forall|k: int| i <= k < 16 ==> (#[trigger] rgba[k])[0] == gradient_values(block@)[k],
            decreases 16 - i,
        {
            let value: u8 = rgba[i][0];
            rgba[i] = [value, value, value, 255];
            assert(rgba[i as int]@ =~= want[i as int]);
            i += 1;
        }
        assert(crate::tile::tile_view(rgba) =~= want);
        rgba
    }
}

impl Decoder for BC4 {

}

impl block::Encoder for BC4 {
    /// The block is the gradient block of the red channel. There are no
    /// colours to fit: the parameters do not matter, and the colour fitter is
    /// never asked.
    open spec fn encodes(
        tile: Seq<Seq<u8>>,
        mask: u32,
        params: Params,
        fits: spec_fn(ColourSet, Params, bool, ColourFit) -> bool,
        bytes: Seq<u8>,
    ) -> bool {
        bytes == gradient_block(tile, 0, mask)
    }

    fn compress_block_masked<F: Fn(&ColourSet, Params, bool) -> ColourFit>(
        rgba: [[u8; 4]; 16],
        mask: u32,
        _params: Params,
        _fitter: &F,
        output: &mut [u8],
    ) {
        // compress the red channel
        compress_bc3(&rgba, 0, mask, output);
    }
}

impl Encoder for BC4 {

}

} // verus!
