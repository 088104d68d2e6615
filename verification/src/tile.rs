//! Geometry of 4x4 tiles inside a row-major RGBA image: which pixels of a tile
//! lie inside the image, where a pixel's bytes are, and how tiles are read
//! from and written back to an image buffer.

use vstd::prelude::*;
use vstd::arithmetic::div_mod::*;
use vstd::arithmetic::mul::*;

verus! {

/// Number of blocks needed to cover `size` pixels along one axis.
pub open spec fn blocks(size: int) -> int {
    (size + 3) / 4
}

/// The sixteen pixels of a tile, each as its four channel values.
pub open spec fn tile_view(rgba: [[u8; 4]; 16]) -> Seq<Seq<u8>> {
    Seq::new(16, |i: int| rgba[i]@)
}

/// A sequence of sixteen pixels with four channels each.
pub open spec fn is_tile(tile: Seq<Seq<u8>>) -> bool {
    &&& tile.len() == 16
    &&& forall|i: int| 0 <= i < 16 ==> (#[trigger] tile[i]).len() == 4
}

/// Whether two tiles have the same pixels wherever the mask enables one.
pub open spec fn agree_where_enabled(first: Seq<Seq<u8>>, second: Seq<Seq<u8>>, mask: u32) -> bool {
    &&& is_tile(first)
    &&& is_tile(second)
    &&& forall|i: int| 0 <= i < 16 && mask_bit(mask, i) ==> #[trigger] first[i] == second[i]
}

/// Whether bit `i` of a pixel mask is set.
pub open spec fn mask_bit(mask: u32, i: int) -> bool {
    0 <= i < 32 && (mask >> (i as u32)) & 1 == 1
}

/// Tests whether tile pixel `i` takes part according to `mask`.
pub fn mask_has(mask: u32, i: usize) -> (b: bool)
    requires
        i < 16,
    ensures
        b == mask_bit(mask, i as int),
{
    (mask >> (i as u32)) & 1 == 1
}

/// Whether pixel (`x`, `y`) lies inside an image of the given size.
pub open spec fn in_image(width: int, height: int, x: int, y: int) -> bool {
    0 <= x < width && 0 <= y < height
}

/// Position of channel `c` of pixel (`x`, `y`) in the image buffer.
pub open spec fn byte_index(width: int, x: int, y: int, c: int) -> int {
    4 * (width * y + x) + c
}

/// Column of the pixel that byte `k` of the image buffer belongs to.
pub open spec fn column_of(width: int, k: int) -> int {
    (k / 4) % width
}

/// Row of the pixel that byte `k` of the image buffer belongs to.
pub open spec fn row_of(width: int, k: int) -> int {
    (k / 4) / width
}

/// Index, within its own tile, of the pixel that byte `k` belongs to.
pub open spec fn slot_of(width: int, k: int) -> int {
    (row_of(width, k) % 4) * 4 + column_of(width, k) % 4
}

/// Whether byte `k` belongs to a pixel of tile (`tx`, `ty`).
pub open spec fn in_block(width: int, k: int, tx: int, ty: int) -> bool {
    column_of(width, k) / 4 == tx && row_of(width, k) / 4 == ty
}

/// How many pixels of block `t` along an axis of `size` pixels are inside.
pub open spec fn span(size: int, t: int) -> int {
    if size - 4 * t >= 4 {
        4
    } else if size - 4 * t <= 0 {
        0
    } else {
        size - 4 * t
    }
}

/// Mask of one tile row with its first `cols` pixels enabled.
pub open spec fn row_bits(cols: u32) -> u32 {
    if cols == 0 {
        0
    } else if cols == 1 {
        0x1
    } else if cols == 2 {
        0x3
    } else if cols == 3 {
        0x7
    } else {
        0xF
    }
}

/// Mask of a tile whose first `cols` columns and first `rows` rows are enabled.
pub open spec fn tile_mask(cols: u32, rows: u32) -> u32 {
    let r = row_bits(cols);
    if rows == 0 {
        0
    } else if rows == 1 {
        r
    } else if rows == 2 {
        r | (r << 4)
    } else if rows == 3 {
        r | (r << 4) | (r << 8)
    } else {
        r | (r << 4) | (r << 8) | (r << 12)
    }
}

/// Mask of the in-image pixels of tile (`tx`, `ty`).
pub open spec fn mask_at(width: int, height: int, tx: int, ty: int) -> u32 {
    tile_mask(span(width, tx) as u32, span(height, ty) as u32)
}

/// Tile (`tx`, `ty`) of an image: pixels inside the image carry the image's
/// bytes, pixels outside are zero.
pub open spec fn tile_at(image: Seq<u8>, width: int, height: int, tx: int, ty: int) -> Seq<Seq<u8>> {
    Seq::new(
        16,
        |i: int|
            Seq::new(
                4,
                |c: int|
                    if in_image(width, height, 4 * tx + i % 4, 4 * ty + i / 4) {
                        image[byte_index(width, 4 * tx + i % 4, 4 * ty + i / 4, c)]
                    } else {
                        0u8
                    },
            ),
    )
}

/// The image after the in-image pixels of `tile` were written to tile
/// position (`tx`, `ty`); every other byte is kept.
pub open spec fn scattered(
    image: Seq<u8>,
    tile: Seq<Seq<u8>>,
    width: int,
    height: int,
    tx: int,
    ty: int,
) -> Seq<u8> {
    Seq::new(
        image.len(),
        |k: int|
            if k < 4 * width * height && in_block(width, k, tx, ty) {
                tile[slot_of(width, k)][k % 4]
            } else {
                image[k]
            },
    )
}

/// A byte position splits into the pixel coordinates and channel it was
/// computed from.
pub proof fn lemma_byte_index_parts(width: int, x: int, y: int, c: int)
    requires
        0 <= x < width,
        0 <= y,
        0 <= c < 4,
    ensures
        column_of(width, byte_index(width, x, y, c)) == x,
        row_of(width, byte_index(width, x, y, c)) == y,
        byte_index(width, x, y, c) % 4 == c,
        byte_index(width, x, y, c) >= 0,
{
    let p = width * y + x;
    assert(p >= 0 && width * y >= 0) by (nonlinear_arith)
        requires
            p == width * y + x,
            0 <= x < width,
            0 <= y,
    ;
    let k = byte_index(width, x, y, c);
    assert(k == 4 * p + c);
    assert(k / 4 == p);
    assert(p == y * width + x) by (nonlinear_arith)
        requires
            p == width * y + x,
    ;
    lemma_fundamental_div_mod_converse(p, width, y, x);
}

/// Every byte position is the position of its own column, row and channel.
pub proof fn lemma_byte_index_of_parts(width: int, k: int)
    requires
        0 < width,
        0 <= k,
    ensures
        k == byte_index(width, column_of(width, k), row_of(width, k), k % 4),
        0 <= column_of(width, k) < width,
        0 <= row_of(width, k),
{
    let p = k / 4;
    lemma_fundamental_div_mod(p, width);
    lemma_mod_bound(p, width);
    lemma_div_pos_is_pos(p, width);
    assert(width * (p / width) == (p / width) * width) by (nonlinear_arith);
}

/// Bytes of an image of `height` rows belong to rows below `height`.
pub proof fn lemma_row_in_image(width: int, height: int, k: int)
    requires
        0 < width,
        0 <= height,
        0 <= k,
    ensures
        k < 4 * width * height <==> row_of(width, k) < height,
{
    lemma_byte_index_of_parts(width, k);
    let x = column_of(width, k);
    let y = row_of(width, k);
    let c = k % 4;
    assert(k == 4 * (width * y + x) + c);
    if y < height {
        assert(width * y + x < width * height) by (nonlinear_arith)
            requires
                0 <= x < width,
                0 <= y < height,
        ;
        assert(4 * (width * y + x) + c < 4 * (width * height));
        assert(4 * (width * height) == 4 * width * height) by (nonlinear_arith);
    } else {
        assert(width * y + x >= width * height) by (nonlinear_arith)
            requires
                0 <= x < width,
                y >= height,
                0 <= height,
        ;
        assert(4 * (width * height) == 4 * width * height) by (nonlinear_arith);
    }
}

/// The bytes of an in-image pixel lie inside the image buffer.
pub proof fn lemma_byte_index_bound(width: int, height: int, x: int, y: int, c: int)
    requires
        0 <= x < width,
        0 <= y < height,
        0 <= c < 4,
    ensures
        0 <= width * y,
        0 <= width * y + x < width * height,
        4 * (width * height) == 4 * width * height,
        0 <= byte_index(width, x, y, c) < 4 * width * height,
{
    assert(0 <= width * y && width * y + x < width * height) by (nonlinear_arith)
        requires
            0 <= x < width,
            0 <= y < height,
    ;
    assert(4 * (width * height) == 4 * width * height) by (nonlinear_arith);
}

/// The mask of `cols` columns and `rows` rows has the bits of their pixels.
proof fn lemma_tile_mask_bits(cols: u32, rows: u32, i: u32)
    by (bit_vector)
    requires
        cols <= 4,
        rows <= 4,
        i < 16,
    ensures
        ((tile_mask(cols, rows) >> i) & 1 == 1) <==> (i % 4 < cols && i / 4 < rows),
{
}

/// A tile's mask marks exactly the pixels of the tile that lie inside the
/// image.
pub proof fn lemma_mask_at_marks_image(width: int, height: int, tx: int, ty: int, i: int)
    requires
        0 <= width,
        0 <= height,
        0 <= tx,
        0 <= ty,
        0 <= i < 16,
    ensures
        mask_bit(mask_at(width, height, tx, ty), i) <==> in_image(
            width,
            height,
            4 * tx + i % 4,
            4 * ty + i / 4,
        ),
{
    let cols = span(width, tx) as u32;
    let rows = span(height, ty) as u32;
    lemma_tile_mask_bits(cols, rows, i as u32);
}

/// Builds tile (`tx`, `ty`) of an image together with the mask of its
/// in-image pixels. Pixels outside the image are zero.
pub fn gather_tile(rgba: &[u8], width: usize, height: usize, tx: usize, ty: usize) -> (r: (
    [[u8; 4]; 16],
    u32,
))
    requires
        4 * width * height <= rgba.len(),
        4 * tx < width,
        4 * ty < height,
    ensures
        tile_view(r.0) == tile_at(rgba@, width as int, height as int, tx as int, ty as int),
        r.1 == mask_at(width as int, height as int, tx as int, ty as int),
{
    let zero: [u8; 4] = [0, 0, 0, 0];
    let mut tile = [zero; 16];
    proof {
        lemma_byte_index_bound(width as int, height as int, 4 * tx as int, 4 * ty as int, 0);
    }
    let ghost want = tile_at(rgba@, width as int, height as int, tx as int, ty as int);
    let mut i: usize = 0;
    while i < 16
        invariant
            i <= 16,
            4 * width * height <= rgba.len(),
            4 * tx < width,
            4 * ty < height,
            want == tile_at(rgba@, width as int, height as int, tx as int, ty as int),
            forall|j: int| 0 <= j < i ==> (#[trigger] tile[j])@ == want[j],
            forall|c: int| 0 <= c < 4 ==> zero[c] == 0,
        decreases 16 - i,
    {
        let sx: usize = 4 * tx + i % 4;
        let sy: usize = 4 * ty + i / 4;
        if sx < width && sy < height {
            proof {
                lemma_byte_index_bound(width as int, height as int, sx as int, sy as int, 0);
                lemma_byte_index_bound(width as int, height as int, sx as int, sy as int, 3);
            }
            let base: usize = 4 * (width * sy + sx);
            let pixel: [u8; 4] = [rgba[base], rgba[base + 1], rgba[base + 2], rgba[base + 3]];
            tile[i] = pixel;
            assert(pixel@ =~= want[i as int]);
        } else {
            tile[i] = zero;
            assert(zero@ =~= want[i as int]);
        }
        i += 1;
    }
    let cols: u32 = if width - 4 * tx >= 4 {
        4
    } else {
        (width - 4 * tx) as u32
    };
    let rows: u32 = if height - 4 * ty >= 4 {
        4
    } else {
        (height - 4 * ty) as u32
    };
    let r: u32 = if cols == 1 {
        0x1
    } else if cols == 2 {
        0x3
    } else if cols == 3 {
        0x7
    } else {
        0xF
    };
    let mask: u32 = if rows == 1 {
        r
    } else if rows == 2 {
        r | (r << 4)
    } else if rows == 3 {
        r | (r << 4) | (r << 8)
    } else {
        r | (r << 4) | (r << 8) | (r << 12)
    };
    assert(tile_view(tile) =~= want);
    (tile, mask)
}

/// Writes the in-image pixels of `tile` to tile position (`tx`, `ty`) of the
/// image in `output`, and leaves every other byte as it was.
pub fn scatter_tile(
    tile: &[[u8; 4]; 16],
    width: usize,
    height: usize,
    tx: usize,
    ty: usize,
    output: &mut [u8],
)
    requires
        4 * width * height <= old(output).len(),
        4 * tx < width,
        4 * ty < height,
    ensures
        final(output)@ == scattered(
            old(output)@,
            tile_view(*tile),
            width as int,
            height as int,
            tx as int,
            ty as int,
        ),
{
    let ghost w = width as int;
    let ghost h = height as int;
    let ghost before = output@;
    proof {
        lemma_byte_index_bound(w, h, 4 * tx as int, 4 * ty as int, 0);
    }
    let mut i: usize = 0;
    while i < 16
        invariant
            i <= 16,
            w == width,
            h == height,
            before == old(output)@,
            4 * w * h <= before.len(),
            4 * tx < width,
            4 * ty < height,
            output@.len() == before.len(),
            output.len() == before.len(),
            forall|k: int|
                0 <= k < before.len() ==> #[trigger] output@[k] == (if k < 4 * w * h && in_block(
                    w,
                    k,
                    tx as int,
                    ty as int,
                ) && slot_of(w, k) < i {
                    tile_view(*tile)[slot_of(w, k)][k % 4]
                } else {
                    before[k]
                }),
        decreases 16 - i,
    {
        let sx: usize = 4 * tx + i % 4;
        let sy: usize = 4 * ty + i / 4;
        let ghost prev = output@;
        if sx < width && sy < height {
            proof {
                lemma_byte_index_bound(w, h, sx as int, sy as int, 0);
                lemma_byte_index_bound(w, h, sx as int, sy as int, 3);
            }
            let base: usize = 4 * (width * sy + sx);
            output[base] = tile[i][0];
            output[base + 1] = tile[i][1];
            output[base + 2] = tile[i][2];
            output[base + 3] = tile[i][3];
            assert forall|k: int| 0 <= k < before.len() implies #[trigger] output@[k] == (if k < 4
                * w * h && in_block(w, k, tx as int, ty as int) && slot_of(w, k) < i + 1 {
                tile_view(*tile)[slot_of(w, k)][k % 4]
            } else {
                before[k]
            }) by {
                lemma_byte_index_of_parts(w, k);
                lemma_row_in_image(w, h, k);
                if base <= k < base + 4 {
                    lemma_byte_index_parts(w, sx as int, sy as int, k - base);
                    assert(k == byte_index(w, sx as int, sy as int, k - base));
                } else {
                    assert(output@[k] == prev[k]);
                    if k < 4 * w * h && in_block(w, k, tx as int, ty as int) && slot_of(w, k) == i {
                        assert(column_of(w, k) == sx);
                        assert(row_of(w, k) == sy);
                        assert(false);
                    }
                }
            }
        } else {
            assert forall|k: int| 0 <= k < before.len() implies #[trigger] output@[k] == (if k < 4
                * w * h && in_block(w, k, tx as int, ty as int) && slot_of(w, k) < i + 1 {
                tile_view(*tile)[slot_of(w, k)][k % 4]
            } else {
                before[k]
            }) by {
                lemma_byte_index_of_parts(w, k);
                lemma_row_in_image(w, h, k);
                if k < 4 * w * h && in_block(w, k, tx as int, ty as int) && slot_of(w, k) == i {
                    assert(column_of(w, k) == sx);
                    assert(row_of(w, k) == sy);
                    assert(false);
                }
            }
        }
        i += 1;
    }
    assert(output@ =~= scattered(before, tile_view(*tile), w, h, tx as int, ty as int)) by {
        assert forall|k: int| 0 <= k < before.len() implies output@[k] == scattered(
            before,
            tile_view(*tile),
            w,
            h,
            tx as int,
            ty as int,
        )[k] by {
            if k < 4 * w * h && in_block(w, k, tx as int, ty as int) {
                assert(0 <= slot_of(w, k) < 16) by {
                    lemma_byte_index_of_parts(w, k);
                }
            }
        }
    }
}

} // verus!
