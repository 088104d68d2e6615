//! Colour blocks: two endpoint colours of 5, 6 and 5 bits and sixteen 2-bit
//! palette indices in 8 bytes.

use vstd::prelude::*;
use vstd::arithmetic::div_mod::{lemma_fundamental_div_mod, lemma_fundamental_div_mod_converse};
use crate::tile::tile_view;

verus! {

/// A 5-bit value as the 8-bit value with the same leading bits, its first
/// three bits repeated at the end.
pub open spec fn expand5(v: int) -> int {
    v * 8 + v / 4
}

/// A 6-bit value as the 8-bit value with the same leading bits, its first
/// two bits repeated at the end.
pub open spec fn expand6(v: int) -> int {
    v * 4 + v / 16
}

/// The 16-bit colour with 5 bits of red, 6 of green and 5 of blue.
pub open spec fn pack565(red: int, green: int, blue: int) -> int {
    red * 2048 + green * 32 + blue
}

/// Channel `c` (0 red, 1 green, 2 blue) of a 16-bit colour, as 8 bits.
pub open spec fn channel_of_565(value: int, c: int) -> int {
    if c == 0 {
        expand5(value / 2048)
    } else if c == 1 {
        expand6((value / 32) % 64)
    } else {
        expand5(value % 32)
    }
}

/// Endpoint `k` (0 or 1) of a colour block, little-endian.
pub open spec fn endpoint(bytes: Seq<u8>, k: int) -> int {
    bytes[2 * k] + 256 * bytes[2 * k + 1]
}

/// Whether a colour block is read with the palette of three colours and
/// transparent black: only BC1 has it, for blocks whose first endpoint is
/// not the larger one.
pub open spec fn uses_three_colours(bytes: Seq<u8>, is_bc1: bool) -> bool {
    is_bc1 && endpoint(bytes, 0) <= endpoint(bytes, 1)
}

/// Channel `c` (3 is alpha) of entry `j` of the palette with endpoints `a`
/// and `b`. With four colours the entries 2 and 3 lie at one and two thirds
/// of the way from `a` to `b`; with three, entry 2 lies half way and entry 3
/// is transparent black.
pub open spec fn palette_channel(a: int, b: int, three: bool, j: int, c: int) -> int {
    if c == 3 {
        if three && j == 3 {
            0
        } else {
            255
        }
    } else {
        let p = channel_of_565(a, c);
        let q = channel_of_565(b, c);
        if j == 0 {
            p
        } else if j == 1 {
            q
        } else if three {
            if j == 2 {
                (p + q) / 2
            } else {
                0
            }
        } else if j == 2 {
            (2 * p + q) / 3
        } else {
            (p + 2 * q) / 3
        }
    }
}

/// 4 to the power `j`, for the four positions of an index byte.
pub open spec fn pow4(j: int) -> int {
    if j <= 0 {
        1
    } else if j == 1 {
        4
    } else if j == 2 {
        16
    } else {
        64
    }
}

/// The 2-bit palette index of pixel `i` in a colour block.
pub open spec fn colour_index(bytes: Seq<u8>, i: int) -> int {
    ((bytes[4 + i / 4] as int) / pow4(i % 4)) % 4
}

/// The sixteen pixels that a colour block decodes to.
pub open spec fn decoded_colours(bytes: Seq<u8>, is_bc1: bool) -> Seq<Seq<u8>> {
    Seq::new(
        16,
        |i: int|
            Seq::new(
                4,
                |c: int|
                    palette_channel(
                        endpoint(bytes, 0),
                        endpoint(bytes, 1),
                        uses_three_colours(bytes, is_bc1),
                        colour_index(bytes, i),
                        c,
                    ) as u8,
            ),
    )
}

/// Expands a 5-bit value to 8 bits by repeating its leading bits.
pub fn expand_5_bits(v: u8) -> (r: u8)
    requires
        v < 32,
    ensures
        r == expand5(v as int),
{
    v * 8 + v / 4
}

/// Expands a 6-bit value to 8 bits by repeating its leading bits.
pub fn expand_6_bits(v: u8) -> (r: u8)
    requires
        v < 64,
    ensures
        r == expand6(v as int),
{
    v * 4 + v / 16
}

/// Packs 5 bits of red, 6 of green and 5 of blue into a 16-bit colour.
pub fn pack_565(red: u8, green: u8, blue: u8) -> (value: u16)
    requires
        red < 32,
        green < 64,
        blue < 32,
    ensures
        value == pack565(red as int, green as int, blue as int),
{
    red as u16 * 2048 + green as u16 * 32 + blue as u16
}

/// Unpacks a 16-bit colour to red, green and blue of 8 bits each, as a
/// decoder sees it.
pub fn unpack_565(value: u16) -> (colour: [u8; 3])
    ensures
        forall|c: int| 0 <= c < 3 ==> colour[c] == channel_of_565(value as int, c),
{
    // get the components in the stored range
    let red: u8 = (value / 2048) as u8;
    let green: u8 = ((value / 32) % 64) as u8;
    let blue: u8 = (value % 32) as u8;
    // scale up to 8 bits
    [expand_5_bits(red), expand_6_bits(green), expand_5_bits(blue)]
}

/// Decompresses the colour block in the 8 bytes of `bytes`.
///
/// `is_bc1` says whether the block may use the palette of three colours and
/// transparent black.
pub fn decompress(bytes: &[u8], is_bc1: bool) -> (rgba: [[u8; 4]; 16])
    requires
        bytes.len() == 8,
    ensures
        tile_view(rgba) == decoded_colours(bytes@, is_bc1),
{
    // unpack the endpoints
    let a: u16 = bytes[0] as u16 + 256 * (bytes[1] as u16);
    let b: u16 = bytes[2] as u16 + 256 * (bytes[3] as u16);
    let start = unpack_565(a);
    let end = unpack_565(b);
    let first: [u8; 4] = [start[0], start[1], start[2], 255];
    let second: [u8; 4] = [end[0], end[1], end[2], 255];
    let three: bool = is_bc1 && a <= b;
    // generate the midpoints
    let mut third: [u8; 4] = [0, 0, 0, 255];
    let mut fourth: [u8; 4] = [0, 0, 0, if three { 0 } else { 255 }];
    let mut c: usize = 0;
    while c < 3
        invariant
            c <= 3,
            a == endpoint(bytes@, 0),
            b == endpoint(bytes@, 1),
            three == uses_three_colours(bytes@, is_bc1),
            forall|k: int| 0 <= k < 3 ==> first[k] == channel_of_565(a as int, k),
            forall|k: int| 0 <= k < 3 ==> second[k] == channel_of_565(b as int, k),
            forall|k: int|
                0 <= k < c ==> third[k] == palette_channel(a as int, b as int, three, 2, k),
            forall|k: int|
                0 <= k < c ==> fourth[k] == palette_channel(a as int, b as int, three, 3, k),
            third[3] == 255,
            fourth[3] == palette_channel(a as int, b as int, three, 3, 3),
        decreases 3 - c,
    {
        let p: u16 = first[c] as u16;
        let q: u16 = second[c] as u16;
        if three {
            third[c] = ((p + q) / 2) as u8;
            fourth[c] = 0;
        } else {
            third[c] = ((2 * p + q) / 3) as u8;
            fourth[c] = ((p + 2 * q) / 3) as u8;
        }
        c += 1;
    }
    let codes: [[u8; 4]; 4] = [first, second, third, fourth];
    assert forall|j: int, k: int| 0 <= j < 4 && 0 <= k < 4 implies #[trigger] codes[j][k]
        == palette_channel(a as int, b as int, three, j, k) by {
        if j == 0 {
            assert(codes[0] == first);
        } else if j == 1 {
            assert(codes[1] == second);
        } else if j == 2 {
            assert(codes[2] == third);
        } else {
            assert(codes[3] == fourth);
        }
    }
    // unpack the indices and store out the colours
    let zero: [u8; 4] = [0, 0, 0, 0];
    let mut rgba = [zero; 16];
    let ghost want = decoded_colours(bytes@, is_bc1);
    let mut i: usize = 0;
    while i < 16
        invariant
            i <= 16,
            bytes.len() == 8,
            a == endpoint(bytes@, 0),
            b == endpoint(bytes@, 1),
            three == uses_three_colours(bytes@, is_bc1),
            want == decoded_colours(bytes@, is_bc1),
            forall|j: int, k: int|
                0 <= j < 4 && 0 <= k < 4 ==> #[trigger] codes[j][k] == palette_channel(
                    a as int,
                    b as int,
                    three,
                    j,
                    k,
                ),
            forall|k: int| 0 <= k < i ==> (#[trigger] rgba[k])@ == want[k],
        decreases 16 - i,
    {
        let packed: u8 = bytes[4 + i / 4];
        let index: u8 = if i % 4 == 0 {
            packed % 4
        } else if i % 4 == 1 {
            (packed / 4) % 4
        } else if i % 4 == 2 {
            (packed / 16) % 4
        } else {
            packed / 64
        };
        assert(index == colour_index(bytes@, i as int));
        rgba[i] = codes[index as usize];
        assert(rgba[i as int]@ =~= want[i as int]);
        i += 1;
    }
    assert(tile_view(rgba) =~= want);
    rgba
}

/// The byte that holds the indices of pixels `4 * k` to `4 * k + 3`, the
/// first in the lowest bits.
pub open spec fn packed_byte(indices: Seq<u8>, k: int) -> int {
    indices[4 * k] + 4 * indices[4 * k + 1] + 16 * indices[4 * k + 2] + 64 * indices[4 * k + 3]
}

/// The bytes of a colour block with endpoints `a` and `b` and the given
/// indices.
pub open spec fn colour_bytes(a: int, b: int, indices: Seq<u8>) -> Seq<u8> {
    seq![
        (a % 256) as u8,
        (a / 256) as u8,
        (b % 256) as u8,
        (b / 256) as u8,
        packed_byte(indices, 0) as u8,
        packed_byte(indices, 1) as u8,
        packed_byte(indices, 2) as u8,
        packed_byte(indices, 3) as u8,
    ]
}

/// An index into a palette as the index of the same colour after the two
/// endpoints were exchanged, where entries 2 and 3 stay in place.
pub open spec fn exchanged_index(j: u8) -> u8 {
    if j == 0 {
        1
    } else if j == 1 {
        0
    } else {
        j
    }
}

/// An index into the palette of four colours as the index of the same
/// colour after the two endpoints were exchanged.
pub open spec fn mirrored_index(j: u8) -> u8 {
    if j == 0 {
        1
    } else if j == 1 {
        0
    } else if j == 2 {
        3
    } else {
        2
    }
}

/// The block that stores the given endpoints and indices for the palette of
/// three colours: its first endpoint is not the larger one.
pub open spec fn three_colour_block(start: int, end: int, indices: Seq<u8>) -> Seq<u8> {
    if start <= end {
        colour_bytes(start, end, indices)
    } else {
        colour_bytes(end, start, indices.map_values(|j: u8| exchanged_index(j)))
    }
}

/// The block that stores the given endpoints and indices for the palette of
/// four colours: its first endpoint is the larger one, or both are equal and
/// every index is 0.
pub open spec fn four_colour_block(start: int, end: int, indices: Seq<u8>) -> Seq<u8> {
    if start < end {
        colour_bytes(end, start, indices.map_values(|j: u8| mirrored_index(j)))
    } else if start == end {
        colour_bytes(start, end, Seq::new(16, |i: int| 0u8))
    } else {
        colour_bytes(start, end, indices)
    }
}

/// Writes the endpoints and indices as they are.
fn write_colour_block(a: u16, b: u16, indices: &[u8; 16], block: &mut [u8])
    requires
        old(block).len() == 8,
        forall|i: int| 0 <= i < 16 ==> indices[i] < 4,
    ensures
        final(block)@ == colour_bytes(a as int, b as int, indices@),
{
    // write the endpoints
    block[0] = (a % 256) as u8;
    block[1] = (a / 256) as u8;
    block[2] = (b % 256) as u8;
    block[3] = (b / 256) as u8;
    // write the indices
    let mut k: usize = 0;
    while k < 4
        invariant
            k <= 4,
            block.len() == 8,
            forall|i: int| 0 <= i < 16 ==> indices[i] < 4,
            forall|j: int|
                0 <= j < 4 + k ==> block@[j] == colour_bytes(a as int, b as int, indices@)[j],
        decreases 4 - k,
    {
        block[4 + k] = indices[4 * k] + 4 * indices[4 * k + 1] + 16 * indices[4 * k + 2] + 64
            * indices[4 * k + 3];
        k += 1;
    }
    assert(block@ =~= colour_bytes(a as int, b as int, indices@));
}

/// Writes a block that is read with the palette of three colours and
/// transparent black, and whose pixels decode to the entries that `indices`
/// select from the palette with endpoints `start` and `end`.
pub fn write3(start: u16, end: u16, indices: &[u8; 16], block: &mut [u8])
    requires
        old(block).len() == 8,
        forall|i: int| 0 <= i < 16 ==> indices[i] < 4,
    ensures
        final(block)@ == three_colour_block(start as int, end as int, indices@),
{
    if start <= end {
        // use the indices directly
        write_colour_block(start, end, indices, block);
    } else {
        // swap a and b
        let mut remapped = [0u8; 16];
        let mut i: usize = 0;
        while i < 16
            invariant
                i <= 16,
                forall|k: int| 0 <= k < 16 ==> indices[k] < 4,
                forall|k: int| 0 <= k < i ==> remapped[k] == exchanged_index(indices[k]),
                forall|k: int| 0 <= k < 16 ==> remapped[k] < 4,
            decreases 16 - i,
        {
            remapped[i] = if indices[i] == 0 {
                1
            } else if indices[i] == 1 {
                0
            } else {
                indices[i]
            };
            i += 1;
        }
        assert(remapped@ =~= indices@.map_values(|j: u8| exchanged_index(j)));
        write_colour_block(end, start, &remapped, block);
    }
}

/// Writes a block that is read with the palette of four colours, and whose
/// pixels decode to the entries that `indices` select from the palette with
/// endpoints `start` and `end`.
pub fn write4(start: u16, end: u16, indices: &[u8; 16], block: &mut [u8])
    requires
        old(block).len() == 8,
        forall|i: int| 0 <= i < 16 ==> indices[i] < 4,
    ensures
        final(block)@ == four_colour_block(start as int, end as int, indices@),
{
    if start < end {
        // swap a and b
        let mut remapped = [0u8; 16];
        let mut i: usize = 0;
        while i < 16
            invariant
                i <= 16,
                forall|k: int| 0 <= k < 16 ==> indices[k] < 4,
                forall|k: int| 0 <= k < i ==> remapped[k] == mirrored_index(indices[k]),
                forall|k: int| 0 <= k < 16 ==> remapped[k] < 4,
            decreases 16 - i,
        {
            remapped[i] = if indices[i] == 0 {
                1
            } else if indices[i] == 1 {
                0
            } else if indices[i] == 2 {
                3
            } else {
                2
            };
            i += 1;
        }
        assert(remapped@ =~= indices@.map_values(|j: u8| mirrored_index(j)));
        write_colour_block(end, start, &remapped, block);
    } else if start == end {
        // use index 0
        let remapped = [0u8; 16];
        assert(remapped@ =~= Seq::new(16, |i: int| 0u8));
        write_colour_block(start, end, &remapped, block);
    } else {
        // use the indices directly
        write_colour_block(start, end, indices, block);
    }
}

/// The endpoints and indices of a block can be read back from its bytes.
pub proof fn lemma_colour_bytes_read_back(a: int, b: int, indices: Seq<u8>)
    requires
        0 <= a < 65536,
        0 <= b < 65536,
        indices.len() == 16,
        forall|i: int| 0 <= i < 16 ==> indices[i] < 4,
    ensures
        endpoint(colour_bytes(a, b, indices), 0) == a,
        endpoint(colour_bytes(a, b, indices), 1) == b,
        forall|i: int|
            0 <= i < 16 ==> #[trigger] colour_index(colour_bytes(a, b, indices), i) == indices[i],
{
    let bytes = colour_bytes(a, b, indices);
    lemma_fundamental_div_mod(a, 256);
    lemma_fundamental_div_mod(b, 256);
    assert forall|i: int| 0 <= i < 16 implies #[trigger] colour_index(bytes, i) == indices[i] by {
        let k = i / 4;
        let r = i % 4;
        assert(i == 4 * k + r);
        let i0 = indices[4 * k] as int;
        let i1 = indices[4 * k + 1] as int;
        let i2 = indices[4 * k + 2] as int;
        let i3 = indices[4 * k + 3] as int;
        let byte = i0 + 4 * i1 + 16 * i2 + 64 * i3;
        assert(bytes[4 + k] == byte);
        if r == 0 {
            lemma_fundamental_div_mod_converse(byte, 4, i1 + 4 * i2 + 16 * i3, i0);
        } else if r == 1 {
            lemma_fundamental_div_mod_converse(byte, 4, i1 + 4 * i2 + 16 * i3, i0);
            lemma_fundamental_div_mod_converse(i1 + 4 * i2 + 16 * i3, 4, i2 + 4 * i3, i1);
        } else if r == 2 {
            lemma_fundamental_div_mod_converse(byte, 16, i2 + 4 * i3, i0 + 4 * i1);
            lemma_fundamental_div_mod_converse(i2 + 4 * i3, 4, i3, i2);
        } else {
            lemma_fundamental_div_mod_converse(byte, 64, i3, i0 + 4 * i1 + 16 * i2);
            lemma_fundamental_div_mod_converse(i3, 4, 0, i3);
        }
    }
}

/// A block written for the palette of four colours decodes, with or without
/// the palette of three colours allowed, to the entries that the indices
/// select from the palette of four colours with the given endpoints.
pub proof fn lemma_four_colour_round_trip(
    start: int,
    end: int,
    indices: Seq<u8>,
    is_bc1: bool,
    i: int,
    c: int,
)
    requires
        0 <= start < 65536,
        0 <= end < 65536,
        indices.len() == 16,
        forall|k: int| 0 <= k < 16 ==> indices[k] < 4,
        0 <= i < 16,
        0 <= c < 4,
    ensures
        decoded_colours(four_colour_block(start, end, indices), is_bc1)[i][c] == palette_channel(
            start,
            end,
            false,
            indices[i] as int,
            c,
        ),
        0 <= palette_channel(start, end, false, indices[i] as int, c) <= 255,
{
    lemma_channel_bound(start, c);
    lemma_channel_bound(end, c);
    if start < end {
        let mirrored = indices.map_values(|j: u8| mirrored_index(j));
        lemma_colour_bytes_read_back(end, start, mirrored);
        assert(colour_index(colour_bytes(end, start, mirrored), i) == mirrored[i]);
    } else if start == end {
        let zeros = Seq::new(16, |k: int| 0u8);
        lemma_colour_bytes_read_back(start, end, zeros);
        assert(colour_index(colour_bytes(start, end, zeros), i) == zeros[i]);
    } else {
        lemma_colour_bytes_read_back(start, end, indices);
        assert(colour_index(colour_bytes(start, end, indices), i) == indices[i]);
    }
}

/// A block written for the palette of three colours decodes, as BC1, to the
/// entries that the indices select from the palette of three colours and
/// transparent black with the given endpoints.
pub proof fn lemma_three_colour_round_trip(
    start: int,
    end: int,
    indices: Seq<u8>,
    i: int,
    c: int,
)
    requires
        0 <= start < 65536,
        0 <= end < 65536,
        indices.len() == 16,
        forall|k: int| 0 <= k < 16 ==> indices[k] < 4,
        0 <= i < 16,
        0 <= c < 4,
    ensures
        decoded_colours(three_colour_block(start, end, indices), true)[i][c] == palette_channel(
            start,
            end,
            true,
            indices[i] as int,
            c,
        ),
        0 <= palette_channel(start, end, true, indices[i] as int, c) <= 255,
{
    lemma_channel_bound(start, c);
    lemma_channel_bound(end, c);
    if start <= end {
        lemma_colour_bytes_read_back(start, end, indices);
        assert(colour_index(colour_bytes(start, end, indices), i) == indices[i]);
    } else {
        let exchanged = indices.map_values(|j: u8| exchanged_index(j));
        lemma_colour_bytes_read_back(end, start, exchanged);
        assert(colour_index(colour_bytes(end, start, exchanged), i) == exchanged[i]);
    }
}

/// The channels of a 16-bit colour are 8-bit values.
pub proof fn lemma_channel_bound(value: int, c: int)
    requires
        0 <= value < 65536,
    ensures
        0 <= channel_of_565(value, c) <= 255,
{
}

/// The channels of a colour packed from 5, 6 and 5 bits are the expanded
/// parts.
pub proof fn lemma_channels_of_packed(red: int, green: int, blue: int)
    requires
        0 <= red < 32,
        0 <= green < 64,
        0 <= blue < 32,
    ensures
        0 <= pack565(red, green, blue) < 65536,
        channel_of_565(pack565(red, green, blue), 0) == expand5(red),
        channel_of_565(pack565(red, green, blue), 1) == expand6(green),
        channel_of_565(pack565(red, green, blue), 2) == expand5(blue),
{
    let value = pack565(red, green, blue);
    lemma_fundamental_div_mod_converse(value, 2048, red, green * 32 + blue);
    lemma_fundamental_div_mod_converse(value, 32, red * 64 + green, blue);
    lemma_fundamental_div_mod_converse(red * 64 + green, 64, red, green);
}

} // verus!
