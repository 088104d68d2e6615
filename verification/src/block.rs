//! What every block format provides: the size of a block, and how one block
//! is decoded and encoded.

use vstd::prelude::*;
use crate::colourfit::ColourFit;
use crate::colourset::ColourSet;
use crate::tile::tile_view;
use crate::Params;

verus! {

/// What a colour fitter may answer to what it is asked: the relation between
/// its arguments and its result.
pub open spec fn fit_relation<F: Fn(&ColourSet, Params, bool) -> ColourFit>(fitter: F) -> spec_fn(
    ColourSet,
    Params,
    bool,
    ColourFit,
) -> bool {
    |set: ColourSet, params: Params, is_bc1: bool, fit: ColourFit|
        call_ensures(fitter, (&set, params, is_bc1), fit)
}

/// The colour fitter can be asked about every set of two or more colours.
pub open spec fn fitter_accepts<F: Fn(&ColourSet, Params, bool) -> ColourFit>(fitter: F) -> bool {
    forall|set: ColourSet, params: Params, is_bc1: bool|
        set.wf() && set.len() >= 2 ==> call_requires(fitter, (&set, params, is_bc1))
}

/// A block format: the size of its blocks.
pub trait Format: Sized {
    /// The number of bytes of one block.
    spec fn block_len() -> nat;

    /// A block has 8 or 16 bytes.
    proof fn block_len_is_8_or_16()
        ensures
            Self::block_len() == 8 || Self::block_len() == 16,
    ;

    /// Returns how many bytes a 4x4 block of pixels will compress into.
    fn block_size() -> (n: usize)
        ensures
            n == Self::block_len(),
    ;
}

/// Decoding of single blocks.
pub trait Decoder: Format {
    /// The sixteen pixels that a block decodes to.
    spec fn decoded(block: Seq<u8>) -> Seq<Seq<u8>>;

    /// Decompresses a 4x4 block of pixels
    ///
    /// * `block`  - The compressed block of pixels
    fn decompress_block(block: &[u8]) -> (rgba: [[u8; 4]; 16])
        requires
            block.len() == Self::block_len(),
        ensures
            tile_view(rgba) == Self::decoded(block@),
    ;
}

/// Encoding of single blocks.
pub trait Encoder: Format {
    /// Whether `bytes` is a block that the format stores for a tile and the
    /// mask of its valid pixels, where `fits` relates what the colour fitter
    /// is asked to what it may answer.
    spec fn encodes(
        tile: Seq<Seq<u8>>,
        mask: u32,
        params: Params,
        fits: spec_fn(ColourSet, Params, bool, ColourFit) -> bool,
        bytes: Seq<u8>,
    ) -> bool;

    /// Compresses a 4x4 block of pixels, masking out some pixels e.g. for padding the
    /// image to a multiple of the block size.
    ///
    /// * `rgba`   - The uncompressed block of pixels
    /// * `mask`   - The valid pixel mask
    /// * `params` - Additional compressor parameters
    /// * `fitter` - Chooses the endpoints of a colour block for two or more colours
    /// * `output` - Storage for the compressed block
    fn compress_block_masked<F: Fn(&ColourSet, Params, bool) -> ColourFit>(
        rgba: [[u8; 4]; 16],
        mask: u32,
        params: Params,
        fitter: &F,
        output: &mut [u8],
    )
        requires
            old(output).len() == Self::block_len(),
            fitter_accepts(*fitter),
        ensures
            final(output).len() == Self::block_len(),
            Self::encodes(tile_view(rgba), mask, params, fit_relation(*fitter), final(output)@),
    ;
}

} // verus!
