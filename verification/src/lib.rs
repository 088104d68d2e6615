//! Block compression of RGBA images in the BC1 to BC5 texture formats.
//!
//! An image is cut into tiles of 4x4 pixels, and every tile is stored as one
//! block of 8 or 16 bytes:
//! * BC1: colour with optional 1-bit alpha
//! * BC2: explicit 4-bit alpha, colour
//! * BC3: gradient alpha, colour
//! * BC4: one gradient channel
//! * BC5: two gradient channels
//!
//! Decoding and the packing of blocks work on integers only. Choosing the two
//! endpoint colours of a colour block for a tile of several colours is a
//! numerical search that the caller supplies as a function, the colour
//! fitter; everything around that search is done here.

pub mod alpha;
mod bc1;
mod bc2;
mod bc3;
mod bc4;
mod bc5;
pub mod block;
pub mod colourblock;
pub mod colourfit;
pub mod colourset;
pub mod laws;
pub mod singlecolourlookup;
pub mod tile;

pub use bc1::BC1;
pub use bc2::BC2;
pub use bc3::BC3;
pub use bc4::BC4;
pub use bc5::BC5;

use vstd::prelude::*;
use crate::block::{fit_relation, fitter_accepts};
use crate::colourfit::ColourFit;
use crate::colourset::ColourSet;
use crate::tile::{
    blocks, column_of, gather_tile, lemma_byte_index_of_parts, lemma_row_in_image,
    mask_at, row_of, scatter_tile, scattered, slot_of, tile_at, tile_view,
};

verus! {

/// Defines a compression algorithm
#[derive(Clone, Copy, PartialEq, Eq, Structural)]
pub enum Algorithm {
    /// Fast, low quality
    RangeFit,
    /// Slow, high quality
    ClusterFit,
    /// Very slow, very high quality
    IterativeClusterFit,
}

impl Default for Algorithm {
    fn default() -> (algorithm: Self)
        ensures
            algorithm == Algorithm::ClusterFit,
    {
        Algorithm::ClusterFit
    }
}

/// RGB colour channel weights for use in block fitting, in units of
/// 1/10000.
pub type ColourWeights = [u16; 3];

/// The value of a channel weight that stands for 1.
pub const COLOUR_WEIGHT_ONE: u16 = 10000;

/// Uniform weights for each colour channel
pub const COLOUR_WEIGHTS_UNIFORM: ColourWeights = [10000, 10000, 10000];

/// Weights based on the perceived brightness of each colour channel
pub const COLOUR_WEIGHTS_PERCEPTUAL: ColourWeights = [2126, 7152, 722];

/// Parameters of compression.
#[derive(Clone, Copy)]
pub struct Params {
    /// The compression algorithm to be used
    pub algorithm: Algorithm,
    /// Weigh the relative importance of each colour channel when fitting
    /// (defaults to perceptual weights)
    pub weights: ColourWeights,
    /// Weigh colour by alpha during cluster fit (defaults to false)
    ///
    /// This can significantly increase perceived quality for images that are
    /// rendered using alpha blending.
    pub weigh_colour_by_alpha: bool,
}

impl Default for Params {
    fn default() -> (params: Self)
        ensures
            params.algorithm == Algorithm::ClusterFit,
            params.weights == COLOUR_WEIGHTS_PERCEPTUAL,
            !params.weigh_colour_by_alpha,
    {
        Params {
            algorithm: Algorithm::ClusterFit,
            weights: COLOUR_WEIGHTS_PERCEPTUAL,
            weigh_colour_by_alpha: false,
        }
    }
}

/// Returns number of blocks needed for an image of given dimension
pub fn num_blocks(size: usize) -> (n: usize)
    ensures
        n == blocks(size as int),
        size <= 4 * n < size + 4,
{
    if size % 4 == 0 {
        size / 4
    } else {
        size / 4 + 1
    }
}

/// Position of block (`tx`, `ty`) in the compressed data of an image that is
/// `width` pixels wide.
pub open spec fn block_offset(width: int, tx: int, ty: int, block_len: int) -> int {
    (ty * blocks(width) + tx) * block_len
}

/// The bytes of block (`tx`, `ty`) in the compressed data.
pub open spec fn block_at(data: Seq<u8>, width: int, tx: int, ty: int, block_len: int) -> Seq<u8> {
    data.subrange(
        block_offset(width, tx, ty, block_len),
        block_offset(width, tx, ty, block_len) + block_len,
    )
}

/// The pixel bytes that the compressed `data` of a `width` x `height` image
/// decode to, row by row.
pub open spec fn decoded_image<D: block::Decoder>(data: Seq<u8>, width: int, height: int) -> Seq<u8> {
    Seq::new(
        (4 * width * height) as nat,
        |k: int|
            D::decoded(
                block_at(
                    data,
                    width,
                    column_of(width, k) / 4,
                    row_of(width, k) / 4,
                    D::block_len() as int,
                ),
            )[slot_of(width, k)][k % 4],
    )
}

/// Whether `data` holds, for every tile of the image, a block that the
/// format stores for the tile: what compressing the image ensures.
pub open spec fn holds_blocks_of<E: block::Encoder>(
    data: Seq<u8>,
    image: Seq<u8>,
    width: int,
    height: int,
    params: Params,
    fits: spec_fn(ColourSet, Params, bool, ColourFit) -> bool,
) -> bool {
    forall|tx: int, ty: int|
        0 <= tx < blocks(width) && 0 <= ty < blocks(height) ==> E::encodes(
            tile_at(image, width, height, tx, ty),
            mask_at(width, height, tx, ty),
            params,
            fits,
            #[trigger] block_at(data, width, tx, ty, E::block_len() as int),
        )
}

/// The blocks of an image lie inside its compressed data.
pub proof fn lemma_block_bounds(bw: int, bh: int, bs: int, tx: int, ty: int)
    requires
        0 <= tx < bw,
        0 <= ty < bh,
        0 <= bs,
    ensures
        0 <= ty * bw,
        0 <= ty * bw + tx < bw * bh,
        0 <= (ty * bw + tx) * bs,
        (ty * bw + tx) * bs + bs <= bw * bh * bs,
{
    assert(0 <= ty * bw && ty * bw + tx + 1 <= bw * bh) by (nonlinear_arith)
        requires
            0 <= tx < bw,
            0 <= ty < bh,
    ;
    let b = ty * bw + tx;
    let n = bw * bh;
    assert(0 <= b * bs && b * bs + bs <= n * bs) by (nonlinear_arith)
        requires
            0 <= b,
            b + 1 <= n,
            0 <= bs,
    ;
}

/// A block ends before the blocks behind it begin.
pub proof fn lemma_block_order(bw: int, bs: int, tx1: int, ty1: int, tx2: int, ty2: int)
    requires
        0 <= tx1 < bw,
        0 <= tx2 <= bw,
        0 <= ty1,
        ty1 < ty2 || (ty1 == ty2 && tx1 < tx2),
        0 <= bs,
    ensures
        0 <= (ty1 * bw + tx1) * bs,
        (ty1 * bw + tx1) * bs + bs <= (ty2 * bw + tx2) * bs,
{
    assert(0 <= ty1 * bw + tx1 && ty1 * bw + tx1 + 1 <= ty2 * bw + tx2) by (nonlinear_arith)
        requires
            0 <= tx1 < bw,
            0 <= tx2 <= bw,
            0 <= ty1,
            ty1 < ty2 || (ty1 == ty2 && tx1 < tx2),
    ;
    let b1 = ty1 * bw + tx1;
    let b2 = ty2 * bw + tx2;
    assert(0 <= b1 * bs && b1 * bs + bs <= b2 * bs) by (nonlinear_arith)
        requires
            0 <= b1,
            b1 + 1 <= b2,
            0 <= bs,
    ;
}

/// Hands out the `len` bytes of `output` from `start` on.
fn block_mut(output: &mut [u8], start: usize, len: usize) -> (block: &mut [u8])
    requires
        start + len <= old(output).len(),
    ensures
        block@ == old(output)@.subrange(start as int, start + len),
        final(output)@ == old(output)@.subrange(0, start as int) + final(block)@ + old(
            output,
        )@.subrange(start + len, old(output).len() as int),
{
    let (_, tail) = output.split_at_mut(start);
    let (block, _) = tail.split_at_mut(len);
    block
}

/// Abstraction over any decoder for any format.
pub trait Decoder: block::Decoder {
    /// Decompresses an image in memory
    ///
    /// * `data`   - The compressed image data
    /// * `width`  - The width of the source image
    /// * `height` - The height of the source image
    /// * `output` - Space to store the decompressed image
    ///
    /// Pixels of the last blocks of a row or column that lie outside the
    /// image are dropped. Bytes of `output` behind the image are kept.
    fn decompress(data: &[u8], width: usize, height: usize, output: &mut [u8])
        requires
            blocks(width as int) * blocks(height as int) * Self::block_len() <= data.len(),
            4 * width * height <= old(output).len(),
        ensures
            final(output).len() == old(output).len(),
            final(output)@.subrange(0, 4 * width * height) == decoded_image::<Self>(
                data@,
                width as int,
                height as int,
            ),
            final(output)@.subrange(4 * width * height, old(output).len() as int) == old(
                output,
            )@.subrange(4 * width * height, old(output).len() as int),
    {
        let blocks_wide: usize = num_blocks(width);
        let blocks_high: usize = num_blocks(height);
        let block_size: usize = Self::block_size();
        let ghost w = width as int;
        let ghost h = height as int;
        let ghost bs = block_size as int;
        let ghost before = output@;
        let ghost image = decoded_image::<Self>(data@, w, h);
        if width == 0 || height == 0 {
            proof {
                assert(4 * w * h == 0) by (nonlinear_arith)
                    requires
                        w == 0 || h == 0,
                ;
                assert(output@.subrange(0, 4 * w * h) =~= image);
            }
            return ;
        }
        proof {
            Self::block_len_is_8_or_16();
            assert forall|k: int| 0 <= k < before.len() implies row_of(w, k) >= 0 by {
                lemma_byte_index_of_parts(w, k);
            }
        }
        let mut ty: usize = 0;
        while ty < blocks_high
            invariant
                ty <= blocks_high,
                blocks_wide == blocks(w),
                blocks_high == blocks(h),
                w == width,
                h == height,
                0 < w,
                0 < h,
                bs == block_size,
                bs == Self::block_len(),
                bs == 8 || bs == 16,
                blocks_wide * blocks_high * bs <= data.len(),
                4 * w * h <= output.len(),
                output.len() == before.len(),
                image == decoded_image::<Self>(data@, w, h),
                forall|k: int|
                    0 <= k < before.len() ==> #[trigger] output@[k] == (if k < 4 * w * h && row_of(
                        w,
                        k,
                    ) / 4 < ty {
                        image[k]
                    } else {
                        before[k]
                    }),
            decreases blocks_high - ty,
        {
            let mut tx: usize = 0;
            while tx < blocks_wide
                invariant
                    ty < blocks_high,
                    tx <= blocks_wide,
                    blocks_wide == blocks(w),
                    blocks_high == blocks(h),
                    w == width,
                    h == height,
                    0 < w,
                    0 < h,
                    bs == block_size,
                    bs == Self::block_len(),
                    bs == 8 || bs == 16,
                    blocks_wide * blocks_high * bs <= data.len(),
                    4 * w * h <= output.len(),
                    output.len() == before.len(),
                    image == decoded_image::<Self>(data@, w, h),
                    forall|k: int|
                        0 <= k < before.len() ==> #[trigger] output@[k] == (if k < 4 * w * h && (
                        row_of(w, k) / 4 < ty || (row_of(w, k) / 4 == ty && column_of(w, k) / 4
                            < tx)) {
                            image[k]
                        } else {
                            before[k]
                        }),
                decreases blocks_wide - tx,
            {
                proof {
                    lemma_block_bounds(
                        blocks_wide as int,
                        blocks_high as int,
                        bs,
                        tx as int,
                        ty as int,
                    );
                }
                let bidx: usize = (ty * blocks_wide + tx) * block_size;
                let rgba = Self::decompress_block(&data[bidx..bidx + block_size]);
                let ghost prev = output@;
                scatter_tile(&rgba, width, height, tx, ty, output);
                proof {
                    assert(data@.subrange(bidx as int, bidx + block_size) == block_at(
                        data@,
                        w,
                        tx as int,
                        ty as int,
                        bs,
                    ));
                    assert forall|k: int| 0 <= k < before.len() implies #[trigger] output@[k] == (
                    if k < 4 * w * h && (row_of(w, k) / 4 < ty || (row_of(w, k) / 4 == ty
                        && column_of(w, k) / 4 < tx + 1)) {
                        image[k]
                    } else {
                        before[k]
                    }) by {
                        assert(output@[k] == scattered(
                            prev,
                            tile_view(rgba),
                            w,
                            h,
                            tx as int,
                            ty as int,
                        )[k]);
                    }
                }
                tx += 1;
            }
            proof {
                assert forall|k: int| 0 <= k < before.len() implies #[trigger] output@[k] == (if k
                    < 4 * w * h && row_of(w, k) / 4 < ty + 1 {
                    image[k]
                } else {
                    before[k]
                }) by {
                    if k < 4 * w * h {
                        lemma_byte_index_of_parts(w, k);
                    }
                }
            }
            ty += 1;
        }
        proof {
            assert forall|k: int| 0 <= k < 4 * w * h implies output@[k] == image[k] by {
                lemma_byte_index_of_parts(w, k);
                lemma_row_in_image(w, h, k);
            }
            assert(output@.subrange(0, 4 * w * h) =~= image);
            assert(output@.subrange(4 * w * h, before.len() as int) =~= before.subrange(
                4 * w * h,
                before.len() as int,
            ));
        }
    }
}

/// Abstraction over any encoder for any format.
pub trait Encoder: block::Encoder {
    /// Computes the amount of space in bytes needed for an image of given size,
    /// accounting for padding to a multiple of 4x4 pixels
    ///
    /// * `width`  - Width of the uncompressed image
    /// * `height` - Height of the uncompressed image
    fn compressed_size(width: usize, height: usize) -> (size: usize)
        requires
            blocks(width as int) * blocks(height as int) * Self::block_len() <= usize::MAX,
        ensures
            size == blocks(width as int) * blocks(height as int) * Self::block_len(),
    {
        proof {
            Self::block_len_is_8_or_16();
            assert(0 <= blocks(width as int) * blocks(height as int) <= blocks(width as int)
                * blocks(height as int) * Self::block_len()) by (nonlinear_arith)
                requires
                    0 <= blocks(width as int),
                    0 <= blocks(height as int),
                    Self::block_len() >= 1,
            ;
        }
        // Number of blocks required for image of given dimensions
        let blocks: usize = num_blocks(width) * num_blocks(height);
        blocks * Self::block_size()
    }

    /// Compresses an image in memory
    ///
    /// * `rgba`   - The uncompressed pixel data
    /// * `width`  - The width of the source image
    /// * `height` - The height of the source image
    /// * `params` - Additional compressor parameters
    /// * `fitter` - Chooses the endpoints of a colour block for two or more colours
    /// * `output` - Output buffer for the compressed image. Ensure that this has
    /// at least as much space available as `compressed_size` suggests.
    ///
    /// Exactly `compressed_size` bytes are written: one block per tile, row by
    /// row. Bytes of `output` behind them are kept.
    fn compress<F: Fn(&ColourSet, Params, bool) -> ColourFit>(
        rgba: &[u8],
        width: usize,
        height: usize,
        params: Params,
        fitter: &F,
        output: &mut [u8],
    )
        requires
            4 * width * height <= rgba.len(),
            blocks(width as int) * blocks(height as int) * Self::block_len() <= old(output).len(),
            fitter_accepts(*fitter),
        ensures
            final(output).len() == old(output).len(),
            holds_blocks_of::<Self>(
                final(output)@,
                rgba@,
                width as int,
                height as int,
                params,
                fit_relation(*fitter),
            ),
            forall|k: int|
                blocks(width as int) * blocks(height as int) * Self::block_len() <= k < old(
                    output,
                ).len() ==> final(output)@[k] == old(output)@[k],
    {
        let block_size: usize = Self::block_size();
        let blocks_wide: usize = num_blocks(width);
        let blocks_high: usize = num_blocks(height);
        let ghost w = width as int;
        let ghost h = height as int;
        let ghost bs = block_size as int;
        let ghost bw = blocks_wide as int;
        let ghost before = output@;
        proof {
            Self::block_len_is_8_or_16();
        }
        let mut ty: usize = 0;
        while ty < blocks_high
            invariant
                ty <= blocks_high,
                bw == blocks_wide,
                blocks_wide == blocks(w),
                blocks_high == blocks(h),
                w == width,
                h == height,
                bs == block_size,
                bs == Self::block_len(),
                bs == 8 || bs == 16,
                4 * w * h <= rgba.len(),
                blocks_wide * blocks_high * bs <= output.len(),
                output.len() == before.len(),
                fitter_accepts(*fitter),
                forall|x: int, y: int|
                    0 <= x < bw && 0 <= y < ty ==> Self::encodes(
                        tile_at(rgba@, w, h, x, y),
                        mask_at(w, h, x, y),
                        params,
                        fit_relation(*fitter),
                        #[trigger] block_at(output@, w, x, y, bs),
                    ),
                forall|k: int|
                    block_offset(w, 0, ty as int, bs) <= k < before.len() ==> output@[k]
                        == before[k],
            decreases blocks_high - ty,
        {
            let mut tx: usize = 0;
            while tx < blocks_wide
                invariant
                    ty < blocks_high,
                    tx <= blocks_wide,
                    bw == blocks_wide,
                    blocks_wide == blocks(w),
                    blocks_high == blocks(h),
                    w == width,
                    h == height,
                    bs == block_size,
                    bs == Self::block_len(),
                    bs == 8 || bs == 16,
                    4 * w * h <= rgba.len(),
                    blocks_wide * blocks_high * bs <= output.len(),
                    output.len() == before.len(),
                    fitter_accepts(*fitter),
                    forall|x: int, y: int|
                        0 <= x < bw && 0 <= y <= ty && (y < ty || x < tx) ==> Self::encodes(
                            tile_at(rgba@, w, h, x, y),
                            mask_at(w, h, x, y),
                            params,
                            fit_relation(*fitter),
                            #[trigger] block_at(output@, w, x, y, bs),
                        ),
                    forall|k: int|
                        block_offset(w, tx as int, ty as int, bs) <= k < before.len() ==> output@[k]
                            == before[k],
                decreases blocks_wide - tx,
            {
                proof {
                    lemma_block_bounds(bw, blocks_high as int, bs, tx as int, ty as int);
                }
                // build the 4x4 block of pixels
                let (source_rgba, mask) = gather_tile(rgba, width, height, tx, ty);
                let offset: usize = (ty * blocks_wide + tx) * block_size;
                let ghost prev = output@;
                let output_block = block_mut(output, offset, block_size);
                Self::compress_block_masked(source_rgba, mask, params, fitter, output_block);
                let ghost written = output_block@;
                proof {
                    let now = output@;
                    assert(now =~= prev.subrange(0, offset as int) + written + prev.subrange(
                        offset + bs,
                        prev.len() as int,
                    ));
                    assert(now.subrange(offset as int, offset + bs) =~= written);
                    assert(block_at(now, w, tx as int, ty as int, bs) =~= now.subrange(
                        offset as int,
                        offset + bs,
                    ));
                    assert forall|x: int, y: int|
                        0 <= x < bw && 0 <= y <= ty && (y < ty || x < tx + 1) implies Self::encodes(
                        tile_at(rgba@, w, h, x, y),
                        mask_at(w, h, x, y),
                        params,
                        fit_relation(*fitter),
                        #[trigger] block_at(now, w, x, y, bs),
                    ) by {
                        if y < ty || x < tx {
                            lemma_block_order(bw, bs, x, y, tx as int, ty as int);
                            assert(block_at(now, w, x, y, bs) =~= block_at(prev, w, x, y, bs));
                        } else {
                            assert(block_at(now, w, x, y, bs) =~= now.subrange(
                                offset as int,
                                offset + bs,
                            ));
                        }
                    }
                    assert((ty * bw + (tx + 1)) * bs == (ty * bw + tx) * bs + bs)
                        by (nonlinear_arith);
                }
                tx += 1;
            }
            proof {
                assert(((ty + 1) * bw + 0) * bs == (ty * bw + bw) * bs) by (nonlinear_arith);
            }
            ty += 1;
        }
        proof {
            assert((blocks_high * bw + 0) * bs == bw * blocks_high * bs) by (nonlinear_arith);
        }
    }
}

} // verus!
