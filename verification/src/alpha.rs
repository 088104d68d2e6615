//! Alpha blocks: explicit 4-bit values, and gradients of two 8-bit endpoints
//! with 3-bit indices. A gradient block can hold any single channel.

use vstd::prelude::*;
use vstd::arithmetic::div_mod::{lemma_fundamental_div_mod, lemma_fundamental_div_mod_converse};
use crate::tile::{agree_where_enabled, is_tile, mask_bit, mask_has, tile_view};

verus! {

/// A tile with channel `channel` of every pixel replaced by `values`.
pub open spec fn with_channel(tile: Seq<Seq<u8>>, channel: int, values: Seq<u8>) -> Seq<Seq<u8>> {
    Seq::new(16, |i: int| tile[i].update(channel, values[i]))
}

// ---------------------------------------------------------------------------
// Explicit alpha
// ---------------------------------------------------------------------------
/// The nearest of the sixteen evenly spaced alpha levels.
pub open spec fn quantise_alpha(alpha: int) -> int {
    (alpha * 15 + 127) / 255
}

/// The 4-bit value of pixel `i` in an explicit alpha block.
pub open spec fn nibble(bytes: Seq<u8>, i: int) -> int {
    if i % 2 == 0 {
        (bytes[i / 2] as int) % 16
    } else {
        (bytes[i / 2] as int) / 16
    }
}

/// The alpha values that an explicit alpha block decodes to.
pub open spec fn explicit_alphas(bytes: Seq<u8>) -> Seq<u8> {
    Seq::new(16, |i: int| (nibble(bytes, i) * 17) as u8)
}

/// The 4-bit value stored for pixel `i`: its quantised alpha, or zero where
/// the pixel is masked out.
pub open spec fn explicit_nibble(tile: Seq<Seq<u8>>, mask: u32, i: int) -> int {
    if mask_bit(mask, i) {
        quantise_alpha(tile[i][3] as int)
    } else {
        0
    }
}

/// The explicit alpha block of a tile: two pixels per byte, the first in the
/// low half.
pub open spec fn explicit_block(tile: Seq<Seq<u8>>, mask: u32) -> Seq<u8> {
    Seq::new(
        8,
        |k: int|
            (explicit_nibble(tile, mask, 2 * k) + 16 * explicit_nibble(tile, mask, 2 * k + 1)) as u8,
    )
}

/// Quantises the alpha channel of a tile to 4 bits per pixel and packs it
/// into the 8 bytes of `block`.
pub fn compress_bc2(rgba: &[[u8; 4]; 16], mask: u32, block: &mut [u8])
    requires
        old(block).len() == 8,
    ensures
        final(block)@ == explicit_block(tile_view(*rgba), mask),
{
    let ghost tile = tile_view(*rgba);
    let mut i: usize = 0;
    while i < 8
        invariant
            i <= 8,
            block.len() == 8,
            tile == tile_view(*rgba),
            forall|k: int| 0 <= k < i ==> block@[k] == explicit_block(tile, mask)[k],
        decreases 8 - i,
    {
        // quantise down to 4 bits, and set alpha to zero where masked
        let alpha1: u32 = rgba[2 * i][3] as u32;
        let alpha2: u32 = rgba[2 * i + 1][3] as u32;
        let quant1: u32 = if mask_has(mask, 2 * i) {
            (alpha1 * 15 + 127) / 255
        } else {
            0
        };
        let quant2: u32 = if mask_has(mask, 2 * i + 1) {
            (alpha2 * 15 + 127) / 255
        } else {
            0
        };
        // pack into the byte
        block[i] = (quant1 + 16 * quant2) as u8;
        i += 1;
    }
    assert(block@ =~= explicit_block(tile, mask));
}

/// Unpacks an explicit alpha block into the alpha channel of `rgba`.
pub fn decompress_bc2(rgba: &mut [[u8; 4]; 16], bytes: &[u8])
    requires
        bytes.len() == 8,
    ensures
        tile_view(*final(rgba)) == with_channel(tile_view(*old(rgba)), 3, explicit_alphas(bytes@)),
        forall|i: int, c: int|
            0 <= i < 16 && 0 <= c < 4 ==> #[trigger] final(rgba)[i][c] == (if c == 3 {
                explicit_alphas(bytes@)[i]
            } else {
                old(rgba)[i][c]
            }),
{
    let ghost before = tile_view(*rgba);
    let ghost want = with_channel(before, 3, explicit_alphas(bytes@));
    let mut i: usize = 0;
    while i < 8
        invariant
            i <= 8,
            bytes.len() == 8,
            before == tile_view(*old(rgba)),
            want == with_channel(before, 3, explicit_alphas(bytes@)),
            forall|k: int| 0 <= k < 2 * i ==> (#[trigger] rgba[k])@ == want[k],
            forall|k: int| 2 * i <= k < 16 ==> (#[trigger] rgba[k])@ == before[k],
        decreases 8 - i,
    {
        let quant: u8 = bytes[i];
        // unpack the values
        let lo: u8 = quant % 16;
        let hi: u8 = quant / 16;
        // convert back up to bytes
        rgba[2 * i][3] = lo * 17;
        rgba[2 * i + 1][3] = hi * 17;
        assert(rgba[2 * i as int]@ =~= want[2 * i as int]);
        assert(rgba[2 * i + 1]@ =~= want[2 * i + 1]);
        i += 1;
    }
    assert(tile_view(*rgba) =~= want);
    assert forall|i: int, c: int| 0 <= i < 16 && 0 <= c < 4 implies #[trigger] rgba[i][c]
        == want[i][c] by {
        assert(rgba[i]@ == want[i]);
    }
}

// ---------------------------------------------------------------------------
// Gradients: decoding
// ---------------------------------------------------------------------------
/// Entry `j` of the palette of a gradient block with endpoints `a0`, `a1`:
/// six values in between where `a0 > a1`, else four values in between
/// followed by 0 and 255.
pub open spec fn gradient_code(a0: int, a1: int, j: int) -> int {
    if j == 0 {
        a0
    } else if j == 1 {
        a1
    } else if a0 > a1 {
        ((8 - j) * a0 + (j - 1) * a1) / 7
    } else if j < 6 {
        ((6 - j) * a0 + (j - 1) * a1) / 5
    } else if j == 6 {
        0
    } else {
        255
    }
}

/// The little-endian 24-bit number in the three bytes of index group `g`.
pub open spec fn index_group(bytes: Seq<u8>, g: int) -> int {
    bytes[2 + 3 * g] + 256 * bytes[3 + 3 * g] + 65536 * bytes[4 + 3 * g]
}

/// 8 to the power `j`, for `j` up to 8.
pub open spec fn pow8(j: int) -> int {
    if j <= 0 {
        1
    } else if j == 1 {
        8
    } else if j == 2 {
        64
    } else if j == 3 {
        512
    } else if j == 4 {
        4096
    } else if j == 5 {
        32768
    } else if j == 6 {
        262144
    } else if j == 7 {
        2097152
    } else {
        16777216
    }
}

/// The 3-bit palette index of pixel `i` in a gradient block.
pub open spec fn gradient_index(bytes: Seq<u8>, i: int) -> int {
    (index_group(bytes, i / 8) / pow8(i % 8)) % 8
}

/// The sixteen values that a gradient block decodes to.
pub open spec fn gradient_values(bytes: Seq<u8>) -> Seq<u8> {
    Seq::new(
        16,
        |i: int| gradient_code(bytes[0] as int, bytes[1] as int, gradient_index(bytes, i)) as u8,
    )
}

/// Dividing by the next power of 8 is dividing by 8 once more.
proof fn lemma_pow8_step(x: int, j: int)
    requires
        0 <= x,
        0 <= j < 8,
    ensures
        (x / pow8(j)) / 8 == x / pow8(j + 1),
        pow8(j + 1) == 8 * pow8(j),
{
    if j == 0 {
    } else if j == 1 {
    } else if j == 2 {
    } else if j == 3 {
    } else if j == 4 {
    } else if j == 5 {
    } else if j == 6 {
    } else {
    }
}

/// The palette of a gradient block with endpoints `alpha0`, `alpha1`.
fn gradient_codes(alpha0: u8, alpha1: u8) -> (codes: [u8; 8])
    ensures
        forall|j: int| 0 <= j < 8 ==> codes[j] == gradient_code(alpha0 as int, alpha1 as int, j),
{
    let a0: u32 = alpha0 as u32;
    let a1: u32 = alpha1 as u32;
    let mut codes: [u8; 8] = [alpha0, alpha1, 0, 0, 0, 0, 0, 255];
    if alpha0 <= alpha1 {
        // four values in between, then 0 and 255
        codes[2] = ((4 * a0 + a1) / 5) as u8;
        codes[3] = ((3 * a0 + 2 * a1) / 5) as u8;
        codes[4] = ((2 * a0 + 3 * a1) / 5) as u8;
        codes[5] = ((a0 + 4 * a1) / 5) as u8;
    } else {
        // six values in between
        codes[2] = ((6 * a0 + a1) / 7) as u8;
        codes[3] = ((5 * a0 + 2 * a1) / 7) as u8;
        codes[4] = ((4 * a0 + 3 * a1) / 7) as u8;
        codes[5] = ((3 * a0 + 4 * a1) / 7) as u8;
        codes[6] = ((2 * a0 + 5 * a1) / 7) as u8;
        codes[7] = ((a0 + 6 * a1) / 7) as u8;
    }
    assert(codes[2] == gradient_code(alpha0 as int, alpha1 as int, 2));
    assert(codes[3] == gradient_code(alpha0 as int, alpha1 as int, 3));
    assert(codes[4] == gradient_code(alpha0 as int, alpha1 as int, 4));
    assert(codes[5] == gradient_code(alpha0 as int, alpha1 as int, 5));
    assert(codes[6] == gradient_code(alpha0 as int, alpha1 as int, 6));
    assert(codes[7] == gradient_code(alpha0 as int, alpha1 as int, 7));
    codes
}

/// Unpacks a gradient block into channel `channel` of `rgba`.
pub fn decompress_bc3(rgba: &mut [[u8; 4]; 16], channel: usize, bytes: &[u8])
    requires
        channel < 4,
        bytes.len() == 8,
    ensures
        tile_view(*final(rgba)) == with_channel(
            tile_view(*old(rgba)),
            channel as int,
            gradient_values(bytes@),
        ),
        forall|i: int, c: int|
            0 <= i < 16 && 0 <= c < 4 ==> #[trigger] final(rgba)[i][c] == (if c == channel {
                gradient_values(bytes@)[i]
            } else {
                old(rgba)[i][c]
            }),
{
    let ghost before = tile_view(*rgba);
    let ghost want = with_channel(before, channel as int, gradient_values(bytes@));
    // get the two alpha values and build the codebook
    let codes = gradient_codes(bytes[0], bytes[1]);
    // decode the indices
    let mut g: usize = 0;
    while g < 2
        invariant
            g <= 2,
            channel < 4,
            bytes.len() == 8,
            before == tile_view(*old(rgba)),
            want == with_channel(before, channel as int, gradient_values(bytes@)),
            forall|j: int|
                0 <= j < 8 ==> codes[j] == gradient_code(bytes@[0] as int, bytes@[1] as int, j),
            forall|k: int| 0 <= k < 8 * g ==> (#[trigger] rgba[k])@ == want[k],
            forall|k: int| 8 * g <= k < 16 ==> (#[trigger] rgba[k])@ == before[k],
        decreases 2 - g,
    {
        // grab 3 bytes
        let group: u32 = bytes[2 + 3 * g] as u32 + 256 * (bytes[3 + 3 * g] as u32) + 65536 * (
        bytes[4 + 3 * g] as u32);
        assert(group == index_group(bytes@, g as int));
        // unpack 8 3-bit values from it
        let mut value: u32 = group;
        let mut j: usize = 0;
        while j < 8
            invariant
                j <= 8,
                g < 2,
                channel < 4,
                bytes.len() == 8,
                before == tile_view(*old(rgba)),
                want == with_channel(before, channel as int, gradient_values(bytes@)),
                group == index_group(bytes@, g as int),
                value as int == (group as int) / pow8(j as int),
                forall|c: int|
                    0 <= c < 8 ==> codes[c] == gradient_code(
                        bytes@[0] as int,
                        bytes@[1] as int,
                        c,
                    ),
                forall|k: int| 0 <= k < 8 * g + j ==> (#[trigger] rgba[k])@ == want[k],
                forall|k: int| 8 * g + j <= k < 16 ==> (#[trigger] rgba[k])@ == before[k],
            decreases 8 - j,
        {
            let index: usize = (value % 8) as usize;
            let i: usize = 8 * g + j;
            assert(i / 8 == g && i % 8 == j);
            assert(index == gradient_index(bytes@, i as int));
            // write out the indexed codebook value
            rgba[i][channel] = codes[index];
            assert(rgba[i as int]@ =~= want[i as int]);
            assert((group as int / pow8(j as int)) / 8 == group as int / pow8(j + 1)) by {
                lemma_pow8_step(group as int, j as int);
            }
            value = value / 8;
            j += 1;
        }
        g += 1;
    }
    assert(tile_view(*rgba) =~= want);
    assert forall|i: int, c: int| 0 <= i < 16 && 0 <= c < 4 implies #[trigger] rgba[i][c]
        == want[i][c] by {
        assert(rgba[i]@ == want[i]);
    }
}

// ---------------------------------------------------------------------------
// Gradients: encoding
// ---------------------------------------------------------------------------
/// Smallest value of channel `channel` among the first `n` pixels that are
/// enabled by `mask` and differ from `skip`; 255 where there is none.
pub open spec fn range_min(tile: Seq<Seq<u8>>, channel: int, mask: u32, skip: int, n: int) -> int
    decreases n,
{
    if n <= 0 {
        255
    } else {
        let rest = range_min(tile, channel, mask, skip, n - 1);
        let value = tile[n - 1][channel] as int;
        if mask_bit(mask, n - 1) && value != skip && value < rest {
            value
        } else {
            rest
        }
    }
}

/// Largest value of channel `channel` among the first `n` pixels that are
/// enabled by `mask` and differ from `skip`; 0 where there is none.
pub open spec fn range_max(tile: Seq<Seq<u8>>, channel: int, mask: u32, skip: int, n: int) -> int
    decreases n,
{
    if n <= 0 {
        0
    } else {
        let rest = range_max(tile, channel, mask, skip, n - 1);
        let value = tile[n - 1][channel] as int;
        if mask_bit(mask, n - 1) && value != skip && value > rest {
            value
        } else {
            rest
        }
    }
}

/// Upper end of a range after it was widened to span at least `steps`.
pub open spec fn widened_max(min: int, max: int, steps: int) -> int {
    if max - min < steps {
        if min + steps < 255 {
            min + steps
        } else {
            255
        }
    } else {
        max
    }
}

/// Lower end of a range after it was widened to span at least `steps`.
pub open spec fn widened_min(min: int, max: int, steps: int) -> int {
    let top = widened_max(min, max, steps);
    if top - min < steps {
        if top - steps > 0 {
            top - steps
        } else {
            0
        }
    } else {
        min
    }
}

/// Lower endpoint that the encoder tries with `steps` intervals (5 or 7).
/// With 5 intervals the values 0 and 255 have palette entries of their own
/// and do not count towards the range.
pub open spec fn low_end(tile: Seq<Seq<u8>>, channel: int, mask: u32, steps: int) -> int {
    let min = range_min(tile, channel, mask, if steps == 5 { 0 } else { -1 }, 16);
    let max = range_max(tile, channel, mask, if steps == 5 { 255 } else { -1 }, 16);
    widened_min(if min > max { max } else { min }, max, steps)
}

/// Upper endpoint that the encoder tries with `steps` intervals (5 or 7).
pub open spec fn high_end(tile: Seq<Seq<u8>>, channel: int, mask: u32, steps: int) -> int {
    let min = range_min(tile, channel, mask, if steps == 5 { 0 } else { -1 }, 16);
    let max = range_max(tile, channel, mask, if steps == 5 { 255 } else { -1 }, 16);
    widened_max(if min > max { max } else { min }, max, steps)
}

/// Entry `j` of the encoder's code book from `min` up to `max`: the two
/// ends, `steps - 1` values in between, and with 5 intervals 0 and 255.
pub open spec fn ramp_code(min: int, max: int, steps: int, j: int) -> int {
    if j == 0 {
        min
    } else if j == 1 {
        max
    } else if j <= steps {
        ((steps + 1 - j) * min + (j - 1) * max) / steps
    } else if j == 6 {
        0
    } else {
        255
    }
}

/// The encoder's code book from `min` up to `max`.
pub open spec fn ramp(min: int, max: int, steps: int) -> Seq<u8> {
    Seq::new(8, |j: int| ramp_code(min, max, steps, j) as u8)
}

/// Squared distance of a value from a code.
pub open spec fn distance(value: int, code: int) -> int {
    (value - code) * (value - code)
}

/// Index of the code nearest to `value` among the first `n` codes; the
/// first of them where several are equally near.
pub open spec fn nearest(codes: Seq<u8>, value: int, n: int) -> int
    decreases n,
{
    if n <= 1 {
        0
    } else {
        let best = nearest(codes, value, n - 1);
        if distance(value, codes[n - 1] as int) < distance(value, codes[best] as int) {
            n - 1
        } else {
            best
        }
    }
}

/// The index that pixel `i` gets from a code book: that of the nearest code,
/// or 0 where the pixel is masked out.
pub open spec fn fitted_index(
    tile: Seq<Seq<u8>>,
    channel: int,
    mask: u32,
    codes: Seq<u8>,
    i: int,
) -> int {
    if mask_bit(mask, i) {
        nearest(codes, tile[i][channel] as int, 8)
    } else {
        0
    }
}

/// The indices that the pixels of a tile get from a code book.
pub open spec fn fitted_indices(tile: Seq<Seq<u8>>, channel: int, mask: u32, codes: Seq<u8>) -> Seq<
    u8,
> {
    Seq::new(16, |i: int| fitted_index(tile, channel, mask, codes, i) as u8)
}

/// Sum over the enabled pixels among the first `n` of the squared distance
/// to the nearest code.
pub open spec fn fit_error(tile: Seq<Seq<u8>>, channel: int, mask: u32, codes: Seq<u8>, n: int) -> int
    decreases n,
{
    if n <= 0 {
        0
    } else {
        fit_error(tile, channel, mask, codes, n - 1) + if mask_bit(mask, n - 1) {
            let value = tile[n - 1][channel] as int;
            distance(value, codes[nearest(codes, value, 8)] as int)
        } else {
            0
        }
    }
}

/// An index of the code book from `min` up to `max` with 7 intervals, as the
/// index of the same value in the palette of the block with endpoints `max`,
/// `min`.
pub open spec fn swapped_index(j: int) -> int {
    if j == 0 {
        1
    } else if j == 1 {
        0
    } else {
        9 - j
    }
}

/// The number that holds the eight 3-bit indices from `start + j` on, the
/// first in the lowest bits.
pub open spec fn packed_indices(indices: Seq<u8>, start: int, j: int) -> int
    decreases 8 - j,
{
    if j >= 8 {
        0
    } else {
        indices[start + j] + 8 * packed_indices(indices, start, j + 1)
    }
}

/// The bytes of a gradient block with the given endpoints and indices.
pub open spec fn gradient_bytes(alpha0: int, alpha1: int, indices: Seq<u8>) -> Seq<u8> {
    let low = packed_indices(indices, 0, 0);
    let high = packed_indices(indices, 8, 0);
    seq![
        alpha0 as u8,
        alpha1 as u8,
        (low % 256) as u8,
        ((low / 256) % 256) as u8,
        (low / 65536) as u8,
        (high % 256) as u8,
        ((high / 256) % 256) as u8,
        (high / 65536) as u8,
    ]
}

/// Whether the encoder stores a tile with 5 intervals and the two fixed
/// entries 0 and 255: it does unless 7 intervals give a smaller error.
pub open spec fn prefers_five(tile: Seq<Seq<u8>>, channel: int, mask: u32) -> bool {
    fit_error(
        tile,
        channel,
        mask,
        ramp(low_end(tile, channel, mask, 5), high_end(tile, channel, mask, 5), 5),
        16,
    ) <= fit_error(
        tile,
        channel,
        mask,
        ramp(low_end(tile, channel, mask, 7), high_end(tile, channel, mask, 7), 7),
        16,
    )
}

/// The gradient block of channel `channel` of a tile.
pub open spec fn gradient_block(tile: Seq<Seq<u8>>, channel: int, mask: u32) -> Seq<u8> {
    if prefers_five(tile, channel, mask) {
        let min = low_end(tile, channel, mask, 5);
        let max = high_end(tile, channel, mask, 5);
        gradient_bytes(min, max, fitted_indices(tile, channel, mask, ramp(min, max, 5)))
    } else {
        let min = low_end(tile, channel, mask, 7);
        let max = high_end(tile, channel, mask, 7);
        gradient_bytes(
            max,
            min,
            fitted_indices(tile, channel, mask, ramp(min, max, 7)).map_values(
                |j: u8| swapped_index(j as int) as u8,
            ),
        )
    }
}

/// Widens the range from `min` to `max` to span at least `steps`.
fn fix_range(min: u8, max: u8, steps: u8) -> (r: (u8, u8))
    requires
        min <= max,
        steps == 5 || steps == 7,
    ensures
        r.0 == widened_min(min as int, max as int, steps as int),
        r.1 == widened_max(min as int, max as int, steps as int),
        r.0 <= r.1,
        r.1 - r.0 >= steps,
{
    let mut low: u8 = min;
    let mut high: u8 = max;
    if high - low < steps {
        high = if low > 255 - steps {
            255
        } else {
            low + steps
        };
    }
    if high - low < steps {
        low = if high < steps {
            0
        } else {
            high - steps
        };
    }
    (low, high)
}

/// The ends of the range that the encoder tries with `steps` intervals.
fn find_range(rgba: &[[u8; 4]; 16], channel: usize, mask: u32, steps: u8) -> (r: (u8, u8))
    requires
        channel < 4,
        steps == 5 || steps == 7,
    ensures
        r.0 == low_end(tile_view(*rgba), channel as int, mask, steps as int),
        r.1 == high_end(tile_view(*rgba), channel as int, mask, steps as int),
        r.0 <= r.1,
        r.1 - r.0 >= steps,
{
    let ghost tile = tile_view(*rgba);
    let ghost skip_low: int = if steps == 5 { 0 } else { -1 };
    let ghost skip_high: int = if steps == 5 { 255 } else { -1 };
    let mut min: u8 = 255;
    let mut max: u8 = 0;
    let mut i: usize = 0;
    while i < 16
        invariant
            i <= 16,
            channel < 4,
            steps == 5 || steps == 7,
            tile == tile_view(*rgba),
            skip_low == (if steps == 5 { 0int } else { -1int }),
            skip_high == (if steps == 5 { 255int } else { -1int }),
            min == range_min(tile, channel as int, mask, skip_low, i as int),
            max == range_max(tile, channel as int, mask, skip_high, i as int),
        decreases 16 - i,
    {
        // check this pixel is valid
        if mask_has(mask, i) {
            // incorporate into the min/max
            let value: u8 = rgba[i][channel];
            if (steps == 7 || value != 0) && value < min {
                min = value;
            }
            if (steps == 7 || value != 255) && value > max {
                max = value;
            }
        }
        i += 1;
    }
    // handle the case that no valid range was found
    if min > max {
        min = max;
    }
    // fix the range to be the minimum in each case
    fix_range(min, max, steps)
}

/// The encoder's code book from `min` up to `max`.
fn ramp_codes(min: u8, max: u8, steps: u8) -> (codes: [u8; 8])
    requires
        min <= max,
        steps == 5 || steps == 7,
    ensures
        codes@ == ramp(min as int, max as int, steps as int),
{
    let lo: u32 = min as u32;
    let hi: u32 = max as u32;
    let mut codes: [u8; 8] = [min, max, 0, 0, 0, 0, 0, 255];
    if steps == 5 {
        codes[2] = ((4 * lo + hi) / 5) as u8;
        codes[3] = ((3 * lo + 2 * hi) / 5) as u8;
        codes[4] = ((2 * lo + 3 * hi) / 5) as u8;
        codes[5] = ((lo + 4 * hi) / 5) as u8;
    } else {
        codes[2] = ((6 * lo + hi) / 7) as u8;
        codes[3] = ((5 * lo + 2 * hi) / 7) as u8;
        codes[4] = ((4 * lo + 3 * hi) / 7) as u8;
        codes[5] = ((3 * lo + 4 * hi) / 7) as u8;
        codes[6] = ((2 * lo + 5 * hi) / 7) as u8;
        codes[7] = ((lo + 6 * hi) / 7) as u8;
    }
    proof {
        let want = ramp(min as int, max as int, steps as int);
        assert(codes[0] == want[0]);
        assert(codes[1] == want[1]);
        assert(codes[2] == want[2]);
        assert(codes[3] == want[3]);
        assert(codes[4] == want[4]);
        assert(codes[5] == want[5]);
        assert(codes[6] == want[6]);
        assert(codes[7] == want[7]);
        assert(codes@ =~= want);
    }
    codes
}

/// Fits each enabled pixel to the nearest code and returns the total error.
fn fit_codes(
    rgba: &[[u8; 4]; 16],
    channel: usize,
    mask: u32,
    codes: &[u8; 8],
    indices: &mut [u8; 16],
) -> (err: u32)
    requires
        channel < 4,
    ensures
        final(indices)@ == fitted_indices(tile_view(*rgba), channel as int, mask, codes@),
        err == fit_error(tile_view(*rgba), channel as int, mask, codes@, 16),
        forall|i: int| 0 <= i < 16 ==> final(indices)[i] < 8,
{
    let ghost tile = tile_view(*rgba);
    // fit each alpha value to the codebook
    let mut err: u32 = 0;
    let mut i: usize = 0;
    while i < 16
        invariant
            i <= 16,
            channel < 4,
            tile == tile_view(*rgba),
            err == fit_error(tile, channel as int, mask, codes@, i as int),
            err <= 65025 * i,
            forall|k: int|
                0 <= k < i ==> indices[k] == fitted_index(tile, channel as int, mask, codes@, k),
            forall|k: int| 0 <= k < i ==> indices[k] < 8,
        decreases 16 - i,
    {
        // check this pixel is valid
        if !mask_has(mask, i) {
            // use the first code
            indices[i] = 0;
        } else {
            // find the least error and corresponding index
            let value: i32 = rgba[i][channel] as i32;
            let first: i32 = value - codes[0] as i32;
            assert(0 <= first * first <= 65025) by (nonlinear_arith)
                requires
                    -255 <= first <= 255,
            ;
            let mut least: u32 = (first * first) as u32;
            let mut index: usize = 0;
            let mut j: usize = 1;
            while j < 8
                invariant
                    1 <= j <= 8,
                    0 <= value <= 255,
                    index < j,
                    index == nearest(codes@, value as int, j as int),
                    least == distance(value as int, codes@[index as int] as int),
                    least <= 65025,
                decreases 8 - j,
            {
                // get the squared error from this code
                let dist: i32 = value - codes[j] as i32;
                assert(0 <= dist * dist <= 65025) by (nonlinear_arith)
                    requires
                        -255 <= dist <= 255,
                ;
                let dist: u32 = (dist * dist) as u32;
                // compare with the best so far
                if dist < least {
                    least = dist;
                    index = j;
                }
                j += 1;
            }
            // save this index and accumulate the error
            indices[i] = index as u8;
            err += least;
        }
        i += 1;
    }
    assert(indices@ =~= fitted_indices(tile, channel as int, mask, codes@));
    // return the total error
    err
}

/// Writes a gradient block with the given endpoints and indices.
fn write_alpha_block(alpha0: u8, alpha1: u8, indices: &[u8; 16], block: &mut [u8])
    requires
        old(block).len() == 8,
        forall|i: int| 0 <= i < 16 ==> indices[i] < 8,
    ensures
        final(block)@ == gradient_bytes(alpha0 as int, alpha1 as int, indices@),
{
    // write the first two bytes
    block[0] = alpha0;
    block[1] = alpha1;
    // pack the indices with 3 bits each
    let mut g: usize = 0;
    while g < 2
        invariant
            g <= 2,
            block.len() == 8,
            forall|i: int| 0 <= i < 16 ==> indices[i] < 8,
            block@[0] == alpha0,
            block@[1] == alpha1,
            forall|k: int|
                2 <= k < 2 + 3 * g ==> block@[k] == gradient_bytes(
                    alpha0 as int,
                    alpha1 as int,
                    indices@,
                )[k],
        decreases 2 - g,
    {
        // pack 8 3-bit values
        let mut value: u32 = 0;
        let mut j: usize = 8;
        while j > 0
            invariant
                j <= 8,
                g < 2,
                forall|i: int| 0 <= i < 16 ==> indices[i] < 8,
                value == packed_indices(indices@, 8 * g as int, j as int),
                value < pow8(8 - j),
            decreases j,
        {
            proof {
                lemma_pow8_step(0, 8 - j);
            }
            j -= 1;
            value = value * 8 + indices[8 * g + j] as u32;
        }
        // store in 3 bytes
        block[2 + 3 * g] = (value % 256) as u8;
        block[3 + 3 * g] = ((value / 256) % 256) as u8;
        block[4 + 3 * g] = (value / 65536) as u8;
        g += 1;
    }
    assert(block@ =~= gradient_bytes(alpha0 as int, alpha1 as int, indices@));
}

/// Encodes channel `channel` of a tile as a gradient block in the 8 bytes of
/// `block`.
///
/// Two code books are tried: one with 5 intervals between the smallest and
/// the largest value other than 0 and 255, which has 0 and 255 as entries of
/// their own, and one with 7 intervals between the smallest and the largest
/// value. Every enabled pixel gets the index of the nearest code. The block
/// with the smaller total squared error is written, the first where both are
/// equal.
pub fn compress_bc3(rgba: &[[u8; 4]; 16], channel: usize, mask: u32, block: &mut [u8])
    requires
        channel < 4,
        old(block).len() == 8,
    ensures
        final(block)@ == gradient_block(tile_view(*rgba), channel as int, mask),
{
    // get the range for 5-alpha and 7-alpha interpolation
    let (min5, max5) = find_range(rgba, channel, mask, 5);
    let (min7, max7) = find_range(rgba, channel, mask, 7);
    // set up the code books
    let codes5 = ramp_codes(min5, max5, 5);
    let codes7 = ramp_codes(min7, max7, 7);
    // fit the data to both code books
    let mut indices5 = [0u8; 16];
    let mut indices7 = [0u8; 16];
    let err5 = fit_codes(rgba, channel, mask, &codes5, &mut indices5);
    let err7 = fit_codes(rgba, channel, mask, &codes7, &mut indices7);
    // save the block with least error
    if err5 <= err7 {
        write_alpha_block(min5, max5, &indices5, block);
    } else {
        // the larger endpoint comes first, so swap the indices
        let ghost fitted = indices7@;
        let mut swapped = [0u8; 16];
        let mut i: usize = 0;
        while i < 16
            invariant
                i <= 16,
                fitted == indices7@,
                forall|k: int| 0 <= k < 16 ==> indices7[k] < 8,
                forall|k: int| 0 <= k < i ==> swapped[k] == swapped_index(fitted[k] as int),
                forall|k: int| 0 <= k < i ==> swapped[k] < 8,
            decreases 16 - i,
        {
            let index: u8 = indices7[i];
            swapped[i] = if index == 0 {
                1
            } else if index == 1 {
                0
            } else {
                9 - index
            };
            i += 1;
        }
        assert(swapped@ =~= fitted.map_values(|j: u8| swapped_index(j as int) as u8));
        write_alpha_block(max7, min7, &swapped, block);
    }
}

// ---------------------------------------------------------------------------
// What holds of explicit alpha blocks
// ---------------------------------------------------------------------------
/// An explicit alpha block decodes every pixel to 17 times its stored value:
/// an enabled pixel decodes to a value within 8 of its alpha, and to its
/// alpha itself where that is a multiple of 17.
pub proof fn lemma_explicit_round_trip(tile: Seq<Seq<u8>>, mask: u32, i: int)
    requires
        is_tile(tile),
        0 <= i < 16,
    ensures
        explicit_alphas(explicit_block(tile, mask))[i] == 17 * explicit_nibble(tile, mask, i),
        mask_bit(mask, i) ==> -8 <= explicit_alphas(explicit_block(tile, mask))[i] - tile[i][3]
            <= 8,
        mask_bit(mask, i) && tile[i][3] % 17 == 0 ==> explicit_alphas(explicit_block(tile, mask))[i]
            == tile[i][3],
{
    let k = i / 2;
    let low = explicit_nibble(tile, mask, 2 * k);
    let high = explicit_nibble(tile, mask, 2 * k + 1);
    assert(0 <= low < 16 && 0 <= high < 16);
    assert(explicit_block(tile, mask)[k] == low + 16 * high);
    lemma_fundamental_div_mod_converse(low + 16 * high, 16, high, low);
}

/// The explicit alpha block of a tile does not depend on the pixels that the
/// mask leaves out.
pub proof fn lemma_explicit_block_ignores_masked(
    first: Seq<Seq<u8>>,
    second: Seq<Seq<u8>>,
    mask: u32,
)
    requires
        agree_where_enabled(first, second, mask),
    ensures
        explicit_block(first, mask) == explicit_block(second, mask),
{
    assert(explicit_block(first, mask) =~= explicit_block(second, mask));
}

// ---------------------------------------------------------------------------
// What holds of gradient blocks
// ---------------------------------------------------------------------------
/// The two ends of a range and the error of a code book do not depend on
/// the pixels that the mask leaves out.
proof fn lemma_folds_ignore_masked(
    first: Seq<Seq<u8>>,
    second: Seq<Seq<u8>>,
    channel: int,
    mask: u32,
    skip: int,
    codes: Seq<u8>,
    n: int,
)
    requires
        agree_where_enabled(first, second, mask),
        0 <= n <= 16,
    ensures
        range_min(first, channel, mask, skip, n) == range_min(second, channel, mask, skip, n),
        range_max(first, channel, mask, skip, n) == range_max(second, channel, mask, skip, n),
        fit_error(first, channel, mask, codes, n) == fit_error(second, channel, mask, codes, n),
    decreases n,
{
    if n > 0 {
        lemma_folds_ignore_masked(first, second, channel, mask, skip, codes, n - 1);
        if mask_bit(mask, n - 1) {
            assert(first[n - 1] == second[n - 1]);
        }
    }
}

/// The gradient block of a tile does not depend on the pixels that the mask
/// leaves out.
pub proof fn lemma_gradient_block_ignores_masked(
    first: Seq<Seq<u8>>,
    second: Seq<Seq<u8>>,
    channel: int,
    mask: u32,
)
    requires
        agree_where_enabled(first, second, mask),
    ensures
        gradient_block(first, channel, mask) == gradient_block(second, channel, mask),
{
    let none = Seq::<u8>::empty();
    lemma_folds_ignore_masked(first, second, channel, mask, 0, none, 16);
    lemma_folds_ignore_masked(first, second, channel, mask, 255, none, 16);
    lemma_folds_ignore_masked(first, second, channel, mask, -1, none, 16);
    let codes5 = ramp(low_end(first, channel, mask, 5), high_end(first, channel, mask, 5), 5);
    let codes7 = ramp(low_end(first, channel, mask, 7), high_end(first, channel, mask, 7), 7);
    lemma_folds_ignore_masked(first, second, channel, mask, 0, codes5, 16);
    lemma_folds_ignore_masked(first, second, channel, mask, 0, codes7, 16);
    assert forall|i: int| 0 <= i < 16 implies fitted_index(first, channel, mask, codes5, i)
        == fitted_index(second, channel, mask, codes5, i) && fitted_index(
        first,
        channel,
        mask,
        codes7,
        i,
    ) == fitted_index(second, channel, mask, codes7, i) by {
        if mask_bit(mask, i) {
            assert(first[i] == second[i]);
        }
    }
    assert(fitted_indices(first, channel, mask, codes5) =~= fitted_indices(
        second,
        channel,
        mask,
        codes5,
    ));
    assert(fitted_indices(first, channel, mask, codes7) =~= fitted_indices(
        second,
        channel,
        mask,
        codes7,
    ));
}

/// The number that holds eight indices has them as its digits to base 8.
proof fn lemma_packed_indices_digits(indices: Seq<u8>, start: int, j: int)
    requires
        0 <= start,
        start + 8 <= indices.len(),
        forall|i: int| 0 <= i < indices.len() ==> indices[i] < 8,
        0 <= j <= 8,
    ensures
        0 <= packed_indices(indices, start, j) < pow8(8 - j),
        j < 8 ==> packed_indices(indices, start, 0) / pow8(j) == packed_indices(indices, start, j),
        j < 8 ==> packed_indices(indices, start, j) % 8 == indices[start + j],
    decreases j,
{
    lemma_packed_indices_bound(indices, start, j);
    if j > 0 && j < 8 {
        lemma_packed_indices_digits(indices, start, j - 1);
        lemma_packed_indices_bound(indices, start, 0);
        lemma_pow8_step(packed_indices(indices, start, 0), j - 1);
        let rest = packed_indices(indices, start, j);
        lemma_fundamental_div_mod_converse(
            packed_indices(indices, start, j - 1),
            8,
            rest,
            indices[start + j - 1] as int,
        );
    }
    if j < 8 {
        lemma_packed_indices_bound(indices, start, j + 1);
        lemma_fundamental_div_mod_converse(
            packed_indices(indices, start, j),
            8,
            packed_indices(indices, start, j + 1),
            indices[start + j] as int,
        );
    }
}

/// The number that holds the indices from `j` on has `8 - j` digits.
proof fn lemma_packed_indices_bound(indices: Seq<u8>, start: int, j: int)
    requires
        0 <= start,
        start + 8 <= indices.len(),
        forall|i: int| 0 <= i < indices.len() ==> indices[i] < 8,
        0 <= j <= 8,
    ensures
        0 <= packed_indices(indices, start, j) < pow8(8 - j),
    decreases 8 - j,
{
    if j < 8 {
        lemma_packed_indices_bound(indices, start, j + 1);
        lemma_pow8_step(0, 7 - j);
    }
}

/// The endpoints and indices of a gradient block can be read back from its
/// bytes.
pub proof fn lemma_gradient_bytes_read_back(alpha0: int, alpha1: int, indices: Seq<u8>)
    requires
        0 <= alpha0 < 256,
        0 <= alpha1 < 256,
        indices.len() == 16,
        forall|i: int| 0 <= i < 16 ==> indices[i] < 8,
    ensures
        gradient_bytes(alpha0, alpha1, indices).len() == 8,
        gradient_bytes(alpha0, alpha1, indices)[0] == alpha0,
        gradient_bytes(alpha0, alpha1, indices)[1] == alpha1,
        forall|i: int|
            0 <= i < 16 ==> #[trigger] gradient_index(gradient_bytes(alpha0, alpha1, indices), i)
                == indices[i],
{
    let bytes = gradient_bytes(alpha0, alpha1, indices);
    assert forall|i: int| 0 <= i < 16 implies #[trigger] gradient_index(bytes, i)
        == indices[i] by {
        let g = i / 8;
        let j = i % 8;
        let group = packed_indices(indices, 8 * g, 0);
        lemma_packed_indices_digits(indices, 8 * g, 0);
        lemma_packed_indices_digits(indices, 8 * g, j);
        lemma_fundamental_div_mod(group, 256);
        lemma_fundamental_div_mod(group / 256, 256);
        assert((group / 256) / 256 == group / 65536);
        assert(index_group(bytes, g) == group);
    }
}

/// The code book with 5 intervals from `min` up to `max` is the palette of
/// the block with endpoints `min`, `max`; the code book with 7 intervals is
/// the palette of the block with endpoints `max`, `min` with its entries
/// exchanged.
pub proof fn lemma_ramp_is_palette(min: int, max: int, j: int)
    requires
        0 <= min <= max <= 255,
        0 <= j < 8,
    ensures
        0 <= ramp_code(min, max, 5, j) <= 255,
        0 <= ramp_code(min, max, 7, j) <= 255,
        ramp_code(min, max, 5, j) == gradient_code(min, max, j),
        min < max ==> ramp_code(min, max, 7, j) == gradient_code(max, min, swapped_index(j)),
        0 <= swapped_index(j) < 8,
        swapped_index(swapped_index(j)) == j,
{
    if j == 2 {
        assert(ramp_code(min, max, 5, 2) == (4 * min + max) / 5);
        assert(ramp_code(min, max, 7, 2) == (6 * min + max) / 7);
    } else if j == 3 {
        assert(ramp_code(min, max, 5, 3) == (3 * min + 2 * max) / 5);
        assert(ramp_code(min, max, 7, 3) == (5 * min + 2 * max) / 7);
    } else if j == 4 {
        assert(ramp_code(min, max, 5, 4) == (2 * min + 3 * max) / 5);
        assert(ramp_code(min, max, 7, 4) == (4 * min + 3 * max) / 7);
    } else if j == 5 {
        assert((5 + 1 - j) * min + (j - 1) * max == min + 4 * max) by (nonlinear_arith)
            requires
                j == 5,
        ;
        assert(ramp_code(min, max, 5, 5) == (min + 4 * max) / 5);
        assert(ramp_code(min, max, 7, 5) == (3 * min + 4 * max) / 7);
    } else if j == 6 {
        assert(ramp_code(min, max, 7, 6) == (2 * min + 5 * max) / 7);
    } else if j == 7 {
        assert((7 + 1 - j) * min + (j - 1) * max == min + 6 * max) by (nonlinear_arith)
            requires
                j == 7,
        ;
        assert(ramp_code(min, max, 7, 7) == (min + 6 * max) / 7);
    }
}

/// The index that the encoder picks is that of a code at the least distance.
pub proof fn lemma_nearest_is_nearest(codes: Seq<u8>, value: int, n: int, j: int)
    requires
        0 <= j < n <= 8,
    ensures
        0 <= nearest(codes, value, n) < n,
        distance(value, codes[nearest(codes, value, n)] as int) <= distance(
            value,
            codes[j] as int,
        ),
    decreases n,
{
    if n > 1 {
        if j < n - 1 {
            lemma_nearest_is_nearest(codes, value, n - 1, j);
        } else {
            lemma_nearest_is_nearest(codes, value, n - 1, 0);
        }
    }
}

/// The ends of a range are 8-bit values.
proof fn lemma_range_bounds(tile: Seq<Seq<u8>>, channel: int, mask: u32, skip: int, n: int)
    ensures
        0 <= range_min(tile, channel, mask, skip, n) <= 255,
        0 <= range_max(tile, channel, mask, skip, n) <= 255,
    decreases n,
{
    if n > 0 {
        lemma_range_bounds(tile, channel, mask, skip, n - 1);
    }
}

/// The range that the encoder tries lies within the 8-bit values and spans
/// at least its number of intervals.
pub proof fn lemma_ends_span_steps(tile: Seq<Seq<u8>>, channel: int, mask: u32, steps: int)
    requires
        steps == 5 || steps == 7,
    ensures
        0 <= low_end(tile, channel, mask, steps),
        high_end(tile, channel, mask, steps) <= 255,
        high_end(tile, channel, mask, steps) - low_end(tile, channel, mask, steps) >= steps,
{
    lemma_range_bounds(tile, channel, mask, if steps == 5 { 0 } else { -1 }, 16);
    lemma_range_bounds(tile, channel, mask, if steps == 5 { 255 } else { -1 }, 16);
}

/// Every enabled pixel decodes to the entry of the block's palette that is
/// nearest to its value: no entry `j` of the palette is nearer.
pub proof fn lemma_gradient_round_trip(tile: Seq<Seq<u8>>, channel: int, mask: u32, i: int, j: int)
    requires
        is_tile(tile),
        0 <= channel < 4,
        0 <= i < 16,
        mask_bit(mask, i),
        0 <= j < 8,
    ensures
        ({
            let block = gradient_block(tile, channel, mask);
            distance(tile[i][channel] as int, gradient_values(block)[i] as int) <= distance(
                tile[i][channel] as int,
                gradient_code(block[0] as int, block[1] as int, j),
            )
        }),
{
    let value = tile[i][channel] as int;
    let block = gradient_block(tile, channel, mask);
    if prefers_five(tile, channel, mask) {
        let min = low_end(tile, channel, mask, 5);
        let max = high_end(tile, channel, mask, 5);
        lemma_ends_span_steps(tile, channel, mask, 5);
        let codes = ramp(min, max, 5);
        let indices = fitted_indices(tile, channel, mask, codes);
        let picked = nearest(codes, value, 8);
        lemma_nearest_is_nearest(codes, value, 8, j);
        assert(indices[i] == picked);
        assert forall|k: int| 0 <= k < 16 implies indices[k] < 8 by {
            if mask_bit(mask, k) {
                lemma_nearest_is_nearest(codes, tile[k][channel] as int, 8, 0);
            }
        }
        lemma_gradient_bytes_read_back(min, max, indices);
        assert(gradient_index(block, i) == picked);
        lemma_ramp_is_palette(min, max, picked);
        lemma_ramp_is_palette(min, max, j);
        assert(codes[picked] == ramp_code(min, max, 5, picked));
        assert(codes[j] == ramp_code(min, max, 5, j));
    } else {
        let min = low_end(tile, channel, mask, 7);
        let max = high_end(tile, channel, mask, 7);
        lemma_ends_span_steps(tile, channel, mask, 7);
        let codes = ramp(min, max, 7);
        let fitted = fitted_indices(tile, channel, mask, codes);
        let indices = fitted.map_values(|k: u8| swapped_index(k as int) as u8);
        let picked = nearest(codes, value, 8);
        let other = swapped_index(j);
        lemma_ramp_is_palette(min, max, j);
        lemma_nearest_is_nearest(codes, value, 8, other);
        assert(fitted[i] == picked);
        assert forall|k: int| 0 <= k < 16 implies indices[k] < 8 by {
            let f = fitted_index(tile, channel, mask, codes, k);
            if mask_bit(mask, k) {
                lemma_nearest_is_nearest(codes, tile[k][channel] as int, 8, 0);
            }
            lemma_ramp_is_palette(min, max, f);
        }
        lemma_ramp_is_palette(min, max, picked);
        assert(indices[i] == swapped_index(picked));
        lemma_gradient_bytes_read_back(max, min, indices);
        assert(gradient_index(block, i) == swapped_index(picked));
        lemma_ramp_is_palette(min, max, other);
        assert(codes[picked] == ramp_code(min, max, 7, picked));
        assert(codes[other] == ramp_code(min, max, 7, other));
    }
}

/// A sum of squared distances is not negative.
proof fn lemma_fit_error_is_not_negative(
    tile: Seq<Seq<u8>>,
    channel: int,
    mask: u32,
    codes: Seq<u8>,
    n: int,
)
    ensures
        0 <= fit_error(tile, channel, mask, codes, n),
    decreases n,
{
    if n > 0 {
        lemma_fit_error_is_not_negative(tile, channel, mask, codes, n - 1);
        let value = tile[n - 1][channel] as int;
        let d = value - codes[nearest(codes, value, 8)];
        assert(0 <= d * d) by (nonlinear_arith);
    }
}

/// Whether a value is neither 0 nor 255.
pub open spec fn is_in_between(value: u8) -> bool {
    0 < value < 255
}

/// Whether the enabled pixels whose values in the channel are neither 0 nor
/// 255 have values within 5 of each other.
pub open spec fn few_in_between(tile: Seq<Seq<u8>>, channel: int, mask: u32) -> bool {
    &&& is_tile(tile)
    &&& 0 <= channel < 4
    &&& forall|i: int, k: int|
        0 <= i < 16 && 0 <= k < 16 && mask_bit(mask, i) && mask_bit(mask, k) && is_in_between(
            (#[trigger] tile[i])[channel],
        ) && is_in_between((#[trigger] tile[k])[channel]) ==> tile[i][channel] - tile[k][channel]
            <= 5
}

/// Whether one of the eight codes is the value.
pub open spec fn has_code(codes: Seq<u8>, value: int) -> bool {
    exists|j: int| 0 <= j < 8 && #[trigger] codes[j] == value
}

/// The four codes in between of a code book with 5 intervals.
proof fn lemma_ramp_of_five(min: int, max: int)
    ensures
        ramp_code(min, max, 5, 2) == (4 * min + max) / 5,
        ramp_code(min, max, 5, 3) == (3 * min + 2 * max) / 5,
        ramp_code(min, max, 5, 4) == (2 * min + 3 * max) / 5,
        ramp_code(min, max, 5, 5) == (min + 4 * max) / 5,
{
    let one: int = 5 + 1 - 5;
    assert(one * min + (5 - 1) * max == min + 4 * max) by (nonlinear_arith)
        requires
            one == 1,
    ;
}

/// The range with 5 intervals bounds every enabled value other than 0 and
/// 255, and each of its ends is such a value unless there is none.
proof fn lemma_range_is_attained(tile: Seq<Seq<u8>>, channel: int, mask: u32, n: int)
    requires
        0 <= n <= 16,
    ensures
        forall|i: int|
            0 <= i < n && mask_bit(mask, i) && (#[trigger] tile[i])[channel] != 0 ==> range_min(
                tile,
                channel,
                mask,
                0,
                n,
            ) <= tile[i][channel],
        forall|i: int|
            0 <= i < n && mask_bit(mask, i) && (#[trigger] tile[i])[channel] != 255 ==> tile[i][channel]
                <= range_max(tile, channel, mask, 255, n),
        range_min(tile, channel, mask, 0, n) == 255 || exists|i: int|
            0 <= i < n && mask_bit(mask, i) && (#[trigger] tile[i])[channel] == range_min(
                tile,
                channel,
                mask,
                0,
                n,
            ) && tile[i][channel] != 0,
        range_max(tile, channel, mask, 255, n) == 0 || exists|i: int|
            0 <= i < n && mask_bit(mask, i) && (#[trigger] tile[i])[channel] == range_max(
                tile,
                channel,
                mask,
                255,
                n,
            ) && tile[i][channel] != 255,
    decreases n,
{
    if n > 0 {
        lemma_range_is_attained(tile, channel, mask, n - 1);
        let low = range_min(tile, channel, mask, 0, n - 1);
        let high = range_max(tile, channel, mask, 255, n - 1);
        let value = tile[n - 1][channel];
        if range_min(tile, channel, mask, 0, n) != 255 {
            if range_min(tile, channel, mask, 0, n) == low {
                let i = choose|i: int|
                    0 <= i < n - 1 && mask_bit(mask, i) && (#[trigger] tile[i])[channel] == low
                        && tile[i][channel] != 0;
                assert(0 <= i < n && mask_bit(mask, i) && tile[i][channel] == low);
            } else {
                assert(mask_bit(mask, n - 1) && tile[n - 1][channel] == value);
            }
        }
        if range_max(tile, channel, mask, 255, n) != 0 {
            if range_max(tile, channel, mask, 255, n) == high {
                let i = choose|i: int|
                    0 <= i < n - 1 && mask_bit(mask, i) && (#[trigger] tile[i])[channel] == high
                        && tile[i][channel] != 255;
                assert(0 <= i < n && mask_bit(mask, i) && tile[i][channel] == high);
            } else {
                assert(mask_bit(mask, n - 1) && tile[n - 1][channel] == value);
            }
        }
    }
}

/// Where every enabled value is a code, the error is zero and every enabled
/// pixel gets the index of its own value.
proof fn lemma_codes_of_all_values(tile: Seq<Seq<u8>>, channel: int, mask: u32, codes: Seq<u8>, n: int)
    requires
        0 <= n <= 16,
        forall|i: int|
            0 <= i < 16 && mask_bit(mask, i) ==> has_code(codes, (#[trigger] tile[i])[channel] as int),
    ensures
        fit_error(tile, channel, mask, codes, n) == 0,
        forall|i: int|
            0 <= i < 16 && mask_bit(mask, i) ==> codes[nearest(
                codes,
                (#[trigger] tile[i])[channel] as int,
                8,
            )] == tile[i][channel],
    decreases n,
{
    assert forall|i: int| 0 <= i < 16 && mask_bit(mask, i) implies codes[nearest(
        codes,
        (#[trigger] tile[i])[channel] as int,
        8,
    )] == tile[i][channel] by {
        let value = tile[i][channel] as int;
        assert(has_code(codes, value));
        let j = choose|j: int| 0 <= j < 8 && #[trigger] codes[j] == value;
        lemma_nearest_is_nearest(codes, value, 8, j);
        let d = value - codes[nearest(codes, value, 8)];
        assert(d == 0) by (nonlinear_arith)
            requires
                d * d <= (value - codes[j]) * (value - codes[j]),
                value - codes[j] == 0,
        ;
    }
    if n > 0 {
        lemma_codes_of_all_values(tile, channel, mask, codes, n - 1);
        if mask_bit(mask, n - 1) {
            assert(codes[nearest(codes, tile[n - 1][channel] as int, 8)] == tile[n - 1][channel]);
        }
    }
}

/// A tile whose enabled values other than 0 and 255 lie within 5 of each
/// other is stored with the palette that has 0 and 255 as entries of their
/// own, so that its first endpoint is not the larger one, and every enabled
/// pixel decodes to its own value.
pub proof fn lemma_few_in_between_use_fixed_entries(
    tile: Seq<Seq<u8>>,
    channel: int,
    mask: u32,
    i: int,
)
    requires
        few_in_between(tile, channel, mask),
        0 <= i < 16,
    ensures
        prefers_five(tile, channel, mask),
        gradient_block(tile, channel, mask)[0] <= gradient_block(tile, channel, mask)[1],
        mask_bit(mask, i) ==> gradient_values(gradient_block(tile, channel, mask))[i]
            == tile[i][channel],
{
    let least = range_min(tile, channel, mask, 0, 16);
    let most = range_max(tile, channel, mask, 255, 16);
    let min = low_end(tile, channel, mask, 5);
    let max = high_end(tile, channel, mask, 5);
    lemma_range_is_attained(tile, channel, mask, 16);
    lemma_range_bounds(tile, channel, mask, 0, 16);
    lemma_range_bounds(tile, channel, mask, 255, 16);
    lemma_ends_span_steps(tile, channel, mask, 5);
    lemma_ends_span_steps(tile, channel, mask, 7);
    if least <= most {
        // both ends are values in between, so they are near each other
        assert(most != 255 && most != 0);
        let high = choose|k: int|
            0 <= k < 16 && mask_bit(mask, k) && (#[trigger] tile[k])[channel] == most
                && tile[k][channel] != 255;
        assert(least != 255 && least != 0);
        let low = choose|k: int|
            0 <= k < 16 && mask_bit(mask, k) && (#[trigger] tile[k])[channel] == least
                && tile[k][channel] != 0;
        assert(is_in_between(tile[high][channel]) && is_in_between(tile[low][channel]));
        assert(most - least <= 5);
    }
    assert(max - min == 5);
    let codes = ramp(min, max, 5);
    lemma_ramp_of_five(min, max);
    assert(codes[0] == min && codes[1] == min + 5 && codes[2] == min + 1 && codes[3] == min + 2
        && codes[4] == min + 3 && codes[5] == min + 4 && codes[6] == 0 && codes[7] == 255);
    assert forall|k: int| 0 <= k < 16 && mask_bit(mask, k) implies has_code(
        codes,
        (#[trigger] tile[k])[channel] as int,
    ) by {
        let value = tile[k][channel] as int;
        if value == 0 {
            assert(codes[6] == value);
        } else if value == 255 {
            assert(codes[7] == value);
        } else {
            assert(least <= value <= most);
            assert(min <= value <= max);
            if value == min {
                assert(codes[0] == value);
            } else if value == min + 1 {
                assert(codes[2] == value);
            } else if value == min + 2 {
                assert(codes[3] == value);
            } else if value == min + 3 {
                assert(codes[4] == value);
            } else if value == min + 4 {
                assert(codes[5] == value);
            } else {
                assert(codes[1] == value);
            }
        }
    }
    lemma_codes_of_all_values(tile, channel, mask, codes, 16);
    lemma_fit_error_is_not_negative(
        tile,
        channel,
        mask,
        ramp(low_end(tile, channel, mask, 7), high_end(tile, channel, mask, 7), 7),
        16,
    );
    let indices = fitted_indices(tile, channel, mask, codes);
    assert forall|k: int| 0 <= k < 16 implies indices[k] < 8 by {
        if mask_bit(mask, k) {
            lemma_nearest_is_nearest(codes, tile[k][channel] as int, 8, 0);
        }
    }
    lemma_gradient_bytes_read_back(min, max, indices);
    if mask_bit(mask, i) {
        let block = gradient_block(tile, channel, mask);
        let picked = nearest(codes, tile[i][channel] as int, 8);
        lemma_nearest_is_nearest(codes, tile[i][channel] as int, 8, 0);
        assert(gradient_index(block, i) == indices[i]);
        assert(indices[i] == picked);
        lemma_ramp_is_palette(min, max, picked);
        assert(codes[picked] == ramp_code(min, max, 5, picked));
    }
}

} // verus!
