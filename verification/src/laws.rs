//! What holds of the five formats as a whole: of decoding, of blocks of a
//! single colour, and of images that differ in their padding only.

use vstd::prelude::*;
use crate::alpha::{
    gradient_values, lemma_explicit_block_ignores_masked,
    lemma_explicit_round_trip, lemma_few_in_between_use_fixed_entries,
    lemma_gradient_block_ignores_masked,
};
use crate::block;
use crate::colourblock::{
    decoded_colours, lemma_channels_of_packed, lemma_four_colour_round_trip,
    lemma_three_colour_round_trip, palette_channel,
};
use crate::colourfit::{
    best_source, channel_entry, colour_block_encodes, entry_value, fitted_block,
    lemma_answer_is_near, lemma_answer_is_nearest, single_fit, single_uses_three,
    table_endpoint, table_error, ColourFit,
};
use crate::colourset::{
    colour_set_of, colour_set_upto, lemma_colour_set_ignores_masked, remapped, ColourSet,
};
use crate::tile::{
    agree_where_enabled, blocks, byte_index, column_of, in_image, is_tile, lemma_byte_index_bound,
    lemma_byte_index_parts, mask_at, mask_bit, row_of, tile_at,
};
use crate::{
    block_at, decoded_image, holds_blocks_of, lemma_block_bounds, Params, BC1, BC2, BC3, BC4, BC5,
};

verus! {

// ---------------------------------------------------------------------------
// Decoding
// ---------------------------------------------------------------------------
/// The bytes of pixel (`x`, `y`) of a decoded image are those of the pixel's
/// place in the tile that its block decodes to.
pub proof fn lemma_decoded_pixel<D: block::Decoder>(
    data: Seq<u8>,
    width: int,
    height: int,
    x: int,
    y: int,
    c: int,
)
    requires
        in_image(width, height, x, y),
        0 <= c < 4,
    ensures
        0 <= byte_index(width, x, y, c) < decoded_image::<D>(data, width, height).len(),
        decoded_image::<D>(data, width, height)[byte_index(width, x, y, c)] == D::decoded(
            block_at(data, width, x / 4, y / 4, D::block_len() as int),
        )[(y % 4) * 4 + x % 4][c],
{
    lemma_byte_index_bound(width, height, x, y, c);
    lemma_byte_index_parts(width, x, y, c);
}

/// Decoding is a function of the blocks of the image alone: compressed data
/// that agree on the blocks of the image decode to the same pixels, whatever
/// follows the blocks.
pub proof fn lemma_decoding_reads_the_blocks_only<D: block::Decoder>(
    first: Seq<u8>,
    second: Seq<u8>,
    width: int,
    height: int,
)
    requires
        0 <= width,
        0 <= height,
        blocks(width) * blocks(height) * D::block_len() <= first.len(),
        blocks(width) * blocks(height) * D::block_len() <= second.len(),
        first.subrange(0, blocks(width) * blocks(height) * D::block_len()) == second.subrange(
            0,
            blocks(width) * blocks(height) * D::block_len(),
        ),
    ensures
        decoded_image::<D>(first, width, height) == decoded_image::<D>(second, width, height),
{
    let bs = D::block_len() as int;
    let size = blocks(width) * blocks(height) * bs;
    let one = decoded_image::<D>(first, width, height);
    let two = decoded_image::<D>(second, width, height);
    assert forall|k: int| 0 <= k < one.len() implies one[k] == two[k] by {
        assert(0 < width) by (nonlinear_arith)
            requires
                0 <= k < 4 * width * height,
                0 <= width,
                0 <= height,
        ;
        crate::tile::lemma_byte_index_of_parts(width, k);
        crate::tile::lemma_row_in_image(width, height, k);
        let tx = column_of(width, k) / 4;
        let ty = row_of(width, k) / 4;
        lemma_block_bounds(blocks(width), blocks(height), bs, tx, ty);
        let start = (ty * blocks(width) + tx) * bs;
        assert(first.subrange(start, start + bs) =~= first.subrange(0, size).subrange(
            start,
            start + bs,
        ));
        assert(second.subrange(start, start + bs) =~= second.subrange(0, size).subrange(
            start,
            start + bs,
        ));
    }
    assert(one =~= two);
}

/// Decompressing a compressed image gives, for every pixel of the image,
/// what the block of the pixel's tile decodes to in the pixel's place: the
/// block is one that the format stores for the tile, the tile holds the
/// pixel of the image in that place, and the mask enables it.
pub proof fn lemma_round_trip_pixel<F: block::Encoder + block::Decoder>(
    data: Seq<u8>,
    image: Seq<u8>,
    width: int,
    height: int,
    params: Params,
    fits: spec_fn(ColourSet, Params, bool, ColourFit) -> bool,
    x: int,
    y: int,
    c: int,
)
    requires
        holds_blocks_of::<F>(data, image, width, height, params, fits),
        in_image(width, height, x, y),
        0 <= c < 4,
    ensures
        ({
            let tile = tile_at(image, width, height, x / 4, y / 4);
            let mask = mask_at(width, height, x / 4, y / 4);
            let block = block_at(data, width, x / 4, y / 4, F::block_len() as int);
            let place = (y % 4) * 4 + x % 4;
            &&& F::encodes(tile, mask, params, fits, block)
            &&& is_tile(tile)
            &&& mask_bit(mask, place)
            &&& tile[place][c] == image[byte_index(width, x, y, c)]
            &&& decoded_image::<F>(data, width, height)[byte_index(width, x, y, c)] == F::decoded(
                block,
            )[place][c]
        }),
{
    let place = (y % 4) * 4 + x % 4;
    lemma_decoded_pixel::<F>(data, width, height, x, y, c);
    crate::tile::lemma_mask_at_marks_image(width, height, x / 4, y / 4, place);
    assert(4 * (x / 4) + place % 4 == x);
    assert(4 * (y / 4) + place / 4 == y);
    assert(0 <= x / 4 < blocks(width) && 0 <= y / 4 < blocks(height));
}

/// Every pixel that a BC4 block decodes to is grey and opaque.
pub proof fn lemma_bc4_is_grey(block: Seq<u8>, i: int)
    requires
        0 <= i < 16,
    ensures
        <BC4 as block::Decoder>::decoded(block)[i].len() == 4,
        <BC4 as block::Decoder>::decoded(block)[i][0] == gradient_values(block)[i],
        <BC4 as block::Decoder>::decoded(block)[i][1] == <BC4 as block::Decoder>::decoded(
            block,
        )[i][0],
        <BC4 as block::Decoder>::decoded(block)[i][2] == <BC4 as block::Decoder>::decoded(
            block,
        )[i][0],
        <BC4 as block::Decoder>::decoded(block)[i][3] == 255,
{
}

/// Every pixel that a BC5 block decodes to has no blue and is opaque.
pub proof fn lemma_bc5_has_no_blue(block: Seq<u8>, i: int)
    requires
        0 <= i < 16,
    ensures
        <BC5 as block::Decoder>::decoded(block)[i].len() == 4,
        <BC5 as block::Decoder>::decoded(block)[i][0] == gradient_values(block.subrange(0, 8))[i],
        <BC5 as block::Decoder>::decoded(block)[i][1] == gradient_values(block.subrange(8, 16))[i],
        <BC5 as block::Decoder>::decoded(block)[i][2] == 0,
        <BC5 as block::Decoder>::decoded(block)[i][3] == 255,
{
}

// ---------------------------------------------------------------------------
// Padding
// ---------------------------------------------------------------------------
/// Whether the wider image `padded` shows `image` in its first `width`
/// columns.
pub open spec fn shows_in_first_columns(
    padded: Seq<u8>,
    padded_width: int,
    image: Seq<u8>,
    width: int,
    height: int,
) -> bool {
    &&& width <= padded_width
    &&& forall|x: int, y: int, c: int|
        0 <= x < width && 0 <= y < height && 0 <= c < 4 ==> padded[#[trigger] byte_index(
            padded_width,
            x,
            y,
            c,
        )] == image[byte_index(width, x, y, c)]
}

/// A tile that lies entirely within the first `width` columns is the same
/// tile, with the same mask, in every wider image that shows the image in
/// its first `width` columns: so whatever holds of its block in the one
/// holds in the other.
pub proof fn lemma_padding_keeps_inner_tiles(
    padded: Seq<u8>,
    padded_width: int,
    image: Seq<u8>,
    width: int,
    height: int,
    tx: int,
    ty: int,
)
    requires
        shows_in_first_columns(padded, padded_width, image, width, height),
        0 <= tx,
        0 <= ty,
        4 * tx + 4 <= width,
    ensures
        tile_at(padded, padded_width, height, tx, ty) == tile_at(image, width, height, tx, ty),
        mask_at(padded_width, height, tx, ty) == mask_at(width, height, tx, ty),
{
    let one = tile_at(padded, padded_width, height, tx, ty);
    let two = tile_at(image, width, height, tx, ty);
    assert forall|i: int| 0 <= i < 16 implies one[i] == two[i] by {
        let x = 4 * tx + i % 4;
        let y = 4 * ty + i / 4;
        assert forall|c: int| 0 <= c < 4 implies one[i][c] == two[i][c] by {
            if in_image(width, height, x, y) {
                assert(padded[byte_index(padded_width, x, y, c)] == image[byte_index(
                    width,
                    x,
                    y,
                    c,
                )]);
            }
        }
        assert(one[i] =~= two[i]);
    }
    assert(one =~= two);
}

/// What holds of the block of a tile inside the first `width` columns holds
/// alike in the image and in every wider image that shows the image in its
/// first `width` columns: both are stored in the same blocks.
pub proof fn lemma_padding_keeps_inner_blocks<E: block::Encoder>(
    padded: Seq<u8>,
    padded_width: int,
    image: Seq<u8>,
    width: int,
    height: int,
    tx: int,
    ty: int,
    params: Params,
    fits: spec_fn(ColourSet, Params, bool, ColourFit) -> bool,
    bytes: Seq<u8>,
)
    requires
        shows_in_first_columns(padded, padded_width, image, width, height),
        0 <= tx,
        0 <= ty,
        4 * tx + 4 <= width,
    ensures
        E::encodes(
            tile_at(padded, padded_width, height, tx, ty),
            mask_at(padded_width, height, tx, ty),
            params,
            fits,
            bytes,
        ) == E::encodes(
            tile_at(image, width, height, tx, ty),
            mask_at(width, height, tx, ty),
            params,
            fits,
            bytes,
        ),
{
    lemma_padding_keeps_inner_tiles(padded, padded_width, image, width, height, tx, ty);
}

/// The pixels that the mask leaves out do not matter: two tiles with the
/// same enabled pixels are stored in the same blocks, in every format.
pub proof fn lemma_masked_pixels_do_not_matter(
    first: Seq<Seq<u8>>,
    second: Seq<Seq<u8>>,
    mask: u32,
    params: Params,
    fits: spec_fn(ColourSet, Params, bool, ColourFit) -> bool,
    bytes: Seq<u8>,
)
    requires
        agree_where_enabled(first, second, mask),
    ensures
        <BC1 as block::Encoder>::encodes(first, mask, params, fits, bytes) == <
            BC1 as block::Encoder
        >::encodes(second, mask, params, fits, bytes),
        <BC2 as block::Encoder>::encodes(first, mask, params, fits, bytes) == <
            BC2 as block::Encoder
        >::encodes(second, mask, params, fits, bytes),
        <BC3 as block::Encoder>::encodes(first, mask, params, fits, bytes) == <
            BC3 as block::Encoder
        >::encodes(second, mask, params, fits, bytes),
        <BC4 as block::Encoder>::encodes(first, mask, params, fits, bytes) == <
            BC4 as block::Encoder
        >::encodes(second, mask, params, fits, bytes),
        <BC5 as block::Encoder>::encodes(first, mask, params, fits, bytes) == <
            BC5 as block::Encoder
        >::encodes(second, mask, params, fits, bytes),
{
    reveal(colour_block_encodes);
    lemma_colour_set_ignores_masked(first, second, mask, true, params.weigh_colour_by_alpha, 16);
    lemma_colour_set_ignores_masked(first, second, mask, false, params.weigh_colour_by_alpha, 16);
    lemma_explicit_block_ignores_masked(first, second, mask);
    lemma_gradient_block_ignores_masked(first, second, 0, mask);
    lemma_gradient_block_ignores_masked(first, second, 1, mask);
    lemma_gradient_block_ignores_masked(first, second, 3, mask);
}

// ---------------------------------------------------------------------------
// Tiles of one colour
// ---------------------------------------------------------------------------
/// Whether every pixel of a tile is opaque and has the given colour.
pub open spec fn is_solid(tile: Seq<Seq<u8>>, colour: (u8, u8, u8)) -> bool {
    &&& is_tile(tile)
    &&& forall|i: int|
        0 <= i < 16 ==> (#[trigger] tile[i])[0] == colour.0 && tile[i][1] == colour.1 && tile[i][2]
            == colour.2 && tile[i][3] == 255
}

/// The colour set of a solid tile has the tile's colour alone, unless no
/// pixel is enabled; it is not transparent, and every enabled pixel maps to
/// that colour.
pub proof fn lemma_solid_colour_set(
    tile: Seq<Seq<u8>>,
    mask: u32,
    is_bc1: bool,
    weigh_by_alpha: bool,
    colour: (u8, u8, u8),
    n: int,
)
    requires
        is_solid(tile, colour),
        0 <= n <= 16,
    ensures
        ({
            let set = colour_set_upto(tile, mask, is_bc1, weigh_by_alpha, n);
            &&& !set.transparent
            &&& set.remap.len() == n
            &&& set.points.len() <= 1
            &&& set.points.len() == 1 ==> set.points[0] == colour
            &&& forall|i: int|
                0 <= i < n ==> #[trigger] set.remap[i] == (if mask_bit(mask, i) {
                    0int
                } else {
                    -1int
                })
            &&& forall|i: int| 0 <= i < n && mask_bit(mask, i) ==> set.points.len() == 1
        }),
    decreases n,
{
    if n > 0 {
        lemma_solid_colour_set(tile, mask, is_bc1, weigh_by_alpha, colour, n - 1);
        let prev = colour_set_upto(tile, mask, is_bc1, weigh_by_alpha, n - 1);
        let pixel = tile[n - 1];
        assert((pixel[0], pixel[1], pixel[2]) == colour);
        if mask_bit(mask, n - 1) {
            if prev.points.len() == 1 {
                assert(prev.points[0] == colour);
                assert(prev.points.contains(colour));
                assert(prev.points.index_of(colour) == 0);
            } else {
                assert(!prev.points.contains(colour));
            }
        }
    }
}

/// The palette entry that the tables pick for a single colour lies within 4
/// of the colour in every channel, and is opaque.
pub proof fn lemma_single_fit_is_near(colour: (u8, u8, u8), is_bc1: bool, transparent: bool, c: int)
    requires
        0 <= c < 4,
    ensures
        ({
            let fit = single_fit(colour, is_bc1, transparent);
            let target: int = if c == 0 {
                colour.0 as int
            } else if c == 1 {
                colour.1 as int
            } else {
                colour.2 as int
            };
            let value = palette_channel(
                fit.start,
                fit.end,
                fit.three_colour,
                fit.indices[0] as int,
                c,
            );
            &&& 0 <= fit.start < 65536
            &&& 0 <= fit.end < 65536
            &&& fit.indices.len() == 16
            &&& forall|i: int| 0 <= i < 16 ==> #[trigger] fit.indices[i] == 2 * best_source(
                colour,
                fit.three_colour,
            )
            &&& (fit.indices[0] == 0 || fit.indices[0] == 2)
            &&& c < 3 ==> -4 <= value - target <= 4
            &&& c == 3 ==> value == 255
        }),
{
    let three = single_uses_three(colour, is_bc1, transparent);
    let source = best_source(colour, three);
    let fit = single_fit(colour, is_bc1, transparent);
    lemma_answer_is_near(false, three, colour.0, source);
    lemma_answer_is_near(true, three, colour.1, source);
    lemma_answer_is_near(false, three, colour.2, source);
    lemma_channels_of_packed(
        channel_entry(colour, three, source, 0, 0),
        channel_entry(colour, three, source, 1, 0),
        channel_entry(colour, three, source, 2, 0),
    );
    lemma_channels_of_packed(
        channel_entry(colour, three, source, 0, 1),
        channel_entry(colour, three, source, 1, 1),
        channel_entry(colour, three, source, 2, 1),
    );
    assert(fit.indices[0] == 2 * source);
    if c < 3 {
        let a = channel_entry(colour, three, source, c, 0);
        let b = channel_entry(colour, three, source, c, 1);
        assert(palette_channel(fit.start, fit.end, three, 2 * source, c) == entry_value(
            c == 1,
            three,
            a,
            b,
            source,
        ));
    }
}

/// The sum over the channels of the squared distance of a colour from entry
/// `j` of the palette with endpoints `start` and `end`.
pub open spec fn palette_error(start: int, end: int, three: bool, j: int, colour: (u8, u8, u8)) -> int {
    (palette_channel(start, end, three, j, 0) - colour.0) * (palette_channel(
        start,
        end,
        three,
        j,
        0,
    ) - colour.0) + (palette_channel(start, end, three, j, 1) - colour.1) * (palette_channel(
        start,
        end,
        three,
        j,
        1,
    ) - colour.1) + (palette_channel(start, end, three, j, 2) - colour.2) * (palette_channel(
        start,
        end,
        three,
        j,
        2,
    ) - colour.2)
}

/// A number that is larger in size has the larger square.
proof fn lemma_square_is_monotonic(small: int, large: int)
    by (nonlinear_arith)
    requires
        0 <= small,
        small <= large || small <= -large,
    ensures
        small * small <= large * large,
{
}

/// The squared distance that the tables give for a colour is that of the
/// palette entry of their endpoints, and no endpoints have a smaller one for
/// the same palette entry.
proof fn lemma_table_error_is_least(
    colour: (u8, u8, u8),
    three: bool,
    source: int,
    start: int,
    end: int,
)
    requires
        0 <= source < 2,
        0 <= start < 65536,
        0 <= end < 65536,
    ensures
        table_error(colour, three, source) <= palette_error(start, end, three, 2 * source, colour),
        table_error(colour, three, source) == palette_error(
            table_endpoint(colour, three, source, 0),
            table_endpoint(colour, three, source, 1),
            three,
            2 * source,
            colour,
        ),
{
    lemma_answer_is_nearest(false, three, colour.0, source, start / 2048, end / 2048);
    lemma_answer_is_nearest(true, three, colour.1, source, (start / 32) % 64, (end / 32) % 64);
    lemma_answer_is_nearest(false, three, colour.2, source, start % 32, end % 32);
    lemma_answer_is_near(false, three, colour.0, source);
    lemma_answer_is_near(true, three, colour.1, source);
    lemma_answer_is_near(false, three, colour.2, source);
    lemma_channels_of_packed(
        channel_entry(colour, three, source, 0, 0),
        channel_entry(colour, three, source, 1, 0),
        channel_entry(colour, three, source, 2, 0),
    );
    lemma_channels_of_packed(
        channel_entry(colour, three, source, 0, 1),
        channel_entry(colour, three, source, 1, 1),
        channel_entry(colour, three, source, 2, 1),
    );
    let e0 = channel_entry(colour, three, source, 0, 2);
    let e1 = channel_entry(colour, three, source, 1, 2);
    let e2 = channel_entry(colour, three, source, 2, 2);
    let d0 = palette_channel(start, end, three, 2 * source, 0) - colour.0;
    let d1 = palette_channel(start, end, three, 2 * source, 1) - colour.1;
    let d2 = palette_channel(start, end, three, 2 * source, 2) - colour.2;
    assert(palette_channel(start, end, three, 2 * source, 0) == entry_value(
        false,
        three,
        start / 2048,
        end / 2048,
        source,
    ));
    assert(palette_channel(start, end, three, 2 * source, 1) == entry_value(
        true,
        three,
        (start / 32) % 64,
        (end / 32) % 64,
        source,
    ));
    assert(palette_channel(start, end, three, 2 * source, 2) == entry_value(
        false,
        three,
        start % 32,
        end % 32,
        source,
    ));
    lemma_square_is_monotonic(e0, d0);
    lemma_square_is_monotonic(e1, d1);
    lemma_square_is_monotonic(e2, d2);
    let own_start = table_endpoint(colour, three, source, 0);
    let own_end = table_endpoint(colour, three, source, 1);
    let o0 = palette_channel(own_start, own_end, three, 2 * source, 0) - colour.0;
    let o1 = palette_channel(own_start, own_end, three, 2 * source, 1) - colour.1;
    let o2 = palette_channel(own_start, own_end, three, 2 * source, 2) - colour.2;
    assert(palette_channel(own_start, own_end, three, 2 * source, 0) == entry_value(
        false,
        three,
        channel_entry(colour, three, source, 0, 0),
        channel_entry(colour, three, source, 0, 1),
        source,
    ));
    assert(palette_channel(own_start, own_end, three, 2 * source, 1) == entry_value(
        true,
        three,
        channel_entry(colour, three, source, 1, 0),
        channel_entry(colour, three, source, 1, 1),
        source,
    ));
    assert(palette_channel(own_start, own_end, three, 2 * source, 2) == entry_value(
        false,
        three,
        channel_entry(colour, three, source, 2, 0),
        channel_entry(colour, three, source, 2, 1),
        source,
    ));
    lemma_square_is_monotonic(e0, o0);
    lemma_square_is_monotonic(e1, o1);
    lemma_square_is_monotonic(e2, o2);
    assert(o0 * o0 == e0 * e0 && o1 * o1 == e1 * e1 && o2 * o2 == e2 * e2) by (nonlinear_arith)
        requires
            o0 == e0 || o0 == -e0,
            o1 == e1 || o1 == -e1,
            o2 == e2 || o2 == -e2,
    ;
}

/// The fit of a single colour is the best there is: no entry of a palette
/// that the tile may use, whatever its endpoints, comes nearer to the colour
/// than the entry that the fit gives to every pixel.
pub proof fn lemma_single_fit_is_least(
    colour: (u8, u8, u8),
    is_bc1: bool,
    transparent: bool,
    start: int,
    end: int,
    three: bool,
    j: int,
)
    requires
        0 <= start < 65536,
        0 <= end < 65536,
        0 <= j < (if three { 3int } else { 4int }),
        three ==> is_bc1,
        !three ==> !(is_bc1 && transparent),
    ensures
        ({
            let fit = single_fit(colour, is_bc1, transparent);
            palette_error(fit.start, fit.end, fit.three_colour, fit.indices[0] as int, colour)
                <= palette_error(start, end, three, j, colour)
        }),
{
    let fit = single_fit(colour, is_bc1, transparent);
    let own = single_uses_three(colour, is_bc1, transparent);
    let source = best_source(colour, own);
    assert(fit.indices[0] == 2 * source);
    lemma_table_error_is_least(colour, own, source, start, end);
    lemma_table_error_is_least(colour, three, best_source(colour, three), start, end);
    if j == 0 || j == 2 {
        lemma_table_error_is_least(colour, three, j / 2, start, end);
    } else {
        // entries 1 and 3 are the entries 0 and 2 of the exchanged endpoints
        lemma_table_error_is_least(colour, three, (j - 1) / 2, end, start);
        assert(palette_error(start, end, three, j, colour) == palette_error(
            end,
            start,
            three,
            j - 1,
            colour,
        ));
    }
}

/// The colour block of a solid tile decodes every enabled pixel to a colour
/// within 4 of the tile's colour in every channel, and as opaque.
pub proof fn lemma_solid_colour_block_round_trip(
    tile: Seq<Seq<u8>>,
    mask: u32,
    params: Params,
    is_bc1: bool,
    fits: spec_fn(ColourSet, Params, bool, ColourFit) -> bool,
    bytes: Seq<u8>,
    colour: (u8, u8, u8),
    i: int,
    c: int,
)
    requires
        is_solid(tile, colour),
        0 <= i < 16,
        mask_bit(mask, i),
        0 <= c < 4,
        colour_block_encodes(tile, mask, params, is_bc1, fits, bytes),
    ensures
        c == 0 ==> -4 <= decoded_colours(bytes, is_bc1)[i][c] - colour.0 <= 4,
        c == 1 ==> -4 <= decoded_colours(bytes, is_bc1)[i][c] - colour.1 <= 4,
        c == 2 ==> -4 <= decoded_colours(bytes, is_bc1)[i][c] - colour.2 <= 4,
        c == 3 ==> decoded_colours(bytes, is_bc1)[i][c] == 255,
{
    reveal(colour_block_encodes);
    let set = colour_set_of(tile, mask, is_bc1, params.weigh_colour_by_alpha);
    lemma_solid_colour_set(tile, mask, is_bc1, params.weigh_colour_by_alpha, colour, 16);
    assert(set.remap[i] == 0);
    assert(set.points.len() == 1);
    let fit = single_fit(colour, is_bc1, false);
    lemma_single_fit_is_near(colour, is_bc1, false, c);
    let indices = remapped(set.remap, fit.indices);
    assert(indices[i] == fit.indices[0]);
    assert forall|k: int| 0 <= k < 16 implies indices[k] < 4 by {
        assert(fit.indices[set.remap[k]] == fit.indices[0] || set.remap[k] < 0);
    }
    assert(bytes == fitted_block(set, fit, is_bc1));
    if is_bc1 && fit.three_colour {
        lemma_three_colour_round_trip(fit.start, fit.end, indices, i, c);
    } else {
        lemma_four_colour_round_trip(fit.start, fit.end, indices, is_bc1, i, c);
    }
}

/// Compressing a solid tile and decompressing the block gives every enabled
/// pixel back within 4 of the tile's colour in every channel, and opaque:
/// for BC1, BC2 and BC3, whatever the parameters and the colour fitter.
pub proof fn lemma_solid_tile_round_trip(
    tile: Seq<Seq<u8>>,
    mask: u32,
    params: Params,
    fits: spec_fn(ColourSet, Params, bool, ColourFit) -> bool,
    bytes: Seq<u8>,
    colour: (u8, u8, u8),
    i: int,
)
    requires
        is_solid(tile, colour),
        0 <= i < 16,
        mask_bit(mask, i),
    ensures
        <BC1 as block::Encoder>::encodes(tile, mask, params, fits, bytes) ==> is_near(
            <BC1 as block::Decoder>::decoded(bytes)[i],
            colour,
        ),
        <BC2 as block::Encoder>::encodes(tile, mask, params, fits, bytes) ==> is_near(
            <BC2 as block::Decoder>::decoded(bytes)[i],
            colour,
        ),
        <BC3 as block::Encoder>::encodes(tile, mask, params, fits, bytes) ==> is_near(
            <BC3 as block::Decoder>::decoded(bytes)[i],
            colour,
        ),
{
    if <BC1 as block::Encoder>::encodes(tile, mask, params, fits, bytes) {
        lemma_solid_colour_block_round_trip(tile, mask, params, true, fits, bytes, colour, i, 0);
        lemma_solid_colour_block_round_trip(tile, mask, params, true, fits, bytes, colour, i, 1);
        lemma_solid_colour_block_round_trip(tile, mask, params, true, fits, bytes, colour, i, 2);
        lemma_solid_colour_block_round_trip(tile, mask, params, true, fits, bytes, colour, i, 3);
    }
    if <BC2 as block::Encoder>::encodes(tile, mask, params, fits, bytes) {
        let part = bytes.subrange(8, 16);
        lemma_solid_colour_block_round_trip(tile, mask, params, false, fits, part, colour, i, 0);
        lemma_solid_colour_block_round_trip(tile, mask, params, false, fits, part, colour, i, 1);
        lemma_solid_colour_block_round_trip(tile, mask, params, false, fits, part, colour, i, 2);
        lemma_explicit_round_trip(tile, mask, i);
    }
    if <BC3 as block::Encoder>::encodes(tile, mask, params, fits, bytes) {
        let part = bytes.subrange(8, 16);
        lemma_solid_colour_block_round_trip(tile, mask, params, false, fits, part, colour, i, 0);
        lemma_solid_colour_block_round_trip(tile, mask, params, false, fits, part, colour, i, 1);
        lemma_solid_colour_block_round_trip(tile, mask, params, false, fits, part, colour, i, 2);
        lemma_few_in_between_use_fixed_entries(tile, 3, mask, i);
    }
}

/// Whether a pixel is opaque and within 4 of a colour in every channel.
pub open spec fn is_near(pixel: Seq<u8>, colour: (u8, u8, u8)) -> bool {
    &&& pixel.len() == 4
    &&& -4 <= pixel[0] - colour.0 <= 4
    &&& -4 <= pixel[1] - colour.1 <= 4
    &&& -4 <= pixel[2] - colour.2 <= 4
    &&& pixel[3] == 255
}

/// The colours of a colour set, the colour of each pixel and whether the set
/// is transparent do not depend on how the pixels are weighted.
pub proof fn lemma_weighting_keeps_colours(tile: Seq<Seq<u8>>, mask: u32, is_bc1: bool, n: int)
    requires
        0 <= n <= 16,
    ensures
        colour_set_upto(tile, mask, is_bc1, true, n).points == colour_set_upto(
            tile,
            mask,
            is_bc1,
            false,
            n,
        ).points,
        colour_set_upto(tile, mask, is_bc1, true, n).remap == colour_set_upto(
            tile,
            mask,
            is_bc1,
            false,
            n,
        ).remap,
        colour_set_upto(tile, mask, is_bc1, true, n).transparent == colour_set_upto(
            tile,
            mask,
            is_bc1,
            false,
            n,
        ).transparent,
    decreases n,
{
    if n > 0 {
        lemma_weighting_keeps_colours(tile, mask, is_bc1, n - 1);
    }
}

/// A tile with at most one colour has the same colour block under all
/// parameters and with every colour fitter: neither the algorithm nor the
/// weights matter, and the fitter is not asked.
pub proof fn lemma_one_colour_ignores_parameters(
    tile: Seq<Seq<u8>>,
    mask: u32,
    is_bc1: bool,
    first: Params,
    first_fits: spec_fn(ColourSet, Params, bool, ColourFit) -> bool,
    second: Params,
    second_fits: spec_fn(ColourSet, Params, bool, ColourFit) -> bool,
    bytes: Seq<u8>,
)
    ensures
        colour_set_of(tile, mask, is_bc1, first.weigh_colour_by_alpha).points.len() <= 1
            ==> colour_block_encodes(tile, mask, first, is_bc1, first_fits, bytes)
            == colour_block_encodes(
            tile,
            mask,
            second,
            is_bc1,
            second_fits,
            bytes,
        ),
{
    reveal(colour_block_encodes);
    lemma_weighting_keeps_colours(tile, mask, is_bc1, 16);
}

/// A tile with at most one colour is stored in the same block under all
/// parameters and with every colour fitter, in BC1, BC2 and BC3. BC4 and BC5
/// have no colours to fit: there this holds of every tile.
pub proof fn lemma_one_colour_tile_ignores_parameters(
    tile: Seq<Seq<u8>>,
    mask: u32,
    first: Params,
    first_fits: spec_fn(ColourSet, Params, bool, ColourFit) -> bool,
    second: Params,
    second_fits: spec_fn(ColourSet, Params, bool, ColourFit) -> bool,
    bytes: Seq<u8>,
)
    ensures
        colour_set_of(tile, mask, true, first.weigh_colour_by_alpha).points.len() <= 1 ==> <
            BC1 as block::Encoder
        >::encodes(tile, mask, first, first_fits, bytes) == <BC1 as block::Encoder>::encodes(
            tile,
            mask,
            second,
            second_fits,
            bytes,
        ),
        colour_set_of(tile, mask, false, first.weigh_colour_by_alpha).points.len() <= 1 ==> <
            BC2 as block::Encoder
        >::encodes(tile, mask, first, first_fits, bytes) == <BC2 as block::Encoder>::encodes(
            tile,
            mask,
            second,
            second_fits,
            bytes,
        ),
        colour_set_of(tile, mask, false, first.weigh_colour_by_alpha).points.len() <= 1 ==> <
            BC3 as block::Encoder
        >::encodes(tile, mask, first, first_fits, bytes) == <BC3 as block::Encoder>::encodes(
            tile,
            mask,
            second,
            second_fits,
            bytes,
        ),
        <BC4 as block::Encoder>::encodes(tile, mask, first, first_fits, bytes) == <
            BC4 as block::Encoder
        >::encodes(tile, mask, second, second_fits, bytes),
        <BC5 as block::Encoder>::encodes(tile, mask, first, first_fits, bytes) == <
            BC5 as block::Encoder
        >::encodes(tile, mask, second, second_fits, bytes),
{
    lemma_one_colour_ignores_parameters(
        tile,
        mask,
        true,
        first,
        first_fits,
        second,
        second_fits,
        bytes,
    );
    lemma_one_colour_ignores_parameters(
        tile,
        mask,
        false,
        first,
        first_fits,
        second,
        second_fits,
        bytes.subrange(8, 16),
    );
}

} // verus!
