//! Fitting a colour block to the colours of a tile: what a fit is, the fit
//! of a single colour from tables, and how a fit becomes a block.

use vstd::prelude::*;
use crate::block::{fit_relation, fitter_accepts};
use crate::colourblock::{
    expand5, expand6, four_colour_block, pack565, pack_565, three_colour_block, write3, write4,
};
use crate::colourset::{colour_set_of, remapped, ColourSet, ColourSetView};
use crate::singlecolourlookup::{
    lookup_5_3, lookup_5_4, lookup_6_3, lookup_6_4, table_5_3, table_5_4, table_6_3, table_6_4,
};
use crate::tile::tile_view;
use crate::Params;

verus! {

/// What a fit holds: the two endpoints as 16-bit colours, for each colour of
/// the set an index into the palette of the endpoints, and whether that is
/// the palette of three colours.
pub struct ColourFitView {
    pub start: int,
    pub end: int,
    pub indices: Seq<u8>,
    pub three_colour: bool,
}

/// Endpoints and palette indices chosen for a set of colours.
pub struct ColourFit {
    start: u16,
    end: u16,
    indices: [u8; 16],
    three_colour: bool,
}

impl View for ColourFit {
    type V = ColourFitView;

    closed spec fn view(&self) -> ColourFitView {
        ColourFitView {
            start: self.start as int,
            end: self.end as int,
            indices: self.indices@,
            three_colour: self.three_colour,
        }
    }
}

impl ColourFit {
    /// Every index is one of the four palette entries.
    #[verifier::type_invariant]
    pub closed spec fn wf(self) -> bool {
        forall|i: int| 0 <= i < 16 ==> self.indices[i] < 4
    }

    /// Makes a fit of two endpoints, given as 16-bit colours with 5 bits of
    /// red, 6 of green and 5 of blue, and one palette index for each colour
    /// of the set. Returns `None` if an index is not below 4.
    ///
    /// * `three_colour` - Whether the indices refer to the palette of three
    ///   colours, in which index 3 is transparent black
    pub fn new(start: u16, end: u16, indices: [u8; 16], three_colour: bool) -> (fit: Option<Self>)
        ensures
            fit is Some <==> (forall|i: int| 0 <= i < 16 ==> indices[i] < 4),
            fit matches Some(f) ==> f@ == (ColourFitView {
                start: start as int,
                end: end as int,
                indices: indices@,
                three_colour,
            }),
    {
        let mut i: usize = 0;
        while i < 16
            invariant
                i <= 16,
                forall|k: int| 0 <= k < i ==> indices[k] < 4,
            decreases 16 - i,
        {
            if indices[i] >= 4 {
                return None;
            }
            i += 1;
        }
        Some(ColourFit { start, end, indices, three_colour })
    }

    /// Returns the first endpoint.
    pub fn start(&self) -> (start: u16)
        ensures
            start == self@.start,
    {
        self.start
    }

    /// Returns the second endpoint.
    pub fn end(&self) -> (end: u16)
        ensures
            end == self@.end,
    {
        self.end
    }

    /// Returns the palette index of each colour of the set.
    pub fn indices(&self) -> (indices: [u8; 16])
        ensures
            indices@ == self@.indices,
            forall|i: int| 0 <= i < 16 ==> indices[i] < 4,
    {
        proof {
            use_type_invariant(self);
        }
        self.indices
    }

    /// Returns whether the indices refer to the palette of three colours.
    pub fn is_three_colour(&self) -> (three_colour: bool)
        ensures
            three_colour == self@.three_colour,
    {
        self.three_colour
    }
}

// ---------------------------------------------------------------------------
// A single colour
// ---------------------------------------------------------------------------
/// The table word for a target value, for 5-bit or 6-bit endpoints and for
/// the palette of three or of four colours.
pub open spec fn lookup(six_bits: bool, three: bool, target: u8) -> u32 {
    if six_bits {
        if three {
            table_6_3(target)
        } else {
            table_6_4(target)
        }
    } else {
        if three {
            table_5_3(target)
        } else {
            table_5_4(target)
        }
    }
}

/// Field `field` (0 first endpoint, 1 second endpoint, 2 distance) of the
/// answer that a table word holds for palette entry 0 (`source` 0) or 2
/// (`source` 1).
pub open spec fn word_field(word: u32, source: int, field: int) -> u32 {
    if source == 0 {
        if field == 0 {
            word >> 24
        } else if field == 1 {
            0
        } else {
            (word >> 4) & 0xF
        }
    } else {
        if field == 0 {
            (word >> 16) & 0xFF
        } else if field == 1 {
            (word >> 8) & 0xFF
        } else {
            word & 0xF
        }
    }
}

/// Field `field` (0 first endpoint, 1 second endpoint, 2 distance) of the
/// table's answer for channel `c` of a colour.
pub open spec fn channel_entry(colour: (u8, u8, u8), three: bool, source: int, c: int, field: int) -> int {
    if c == 0 {
        word_field(lookup(false, three, colour.0), source, field) as int
    } else if c == 1 {
        word_field(lookup(true, three, colour.1), source, field) as int
    } else {
        word_field(lookup(false, three, colour.2), source, field) as int
    }
}

/// The squared distance of a colour from the palette entry that the tables
/// give for it.
pub open spec fn table_error(colour: (u8, u8, u8), three: bool, source: int) -> int {
    channel_entry(colour, three, source, 0, 2) * channel_entry(colour, three, source, 0, 2)
        + channel_entry(colour, three, source, 1, 2) * channel_entry(colour, three, source, 1, 2)
        + channel_entry(colour, three, source, 2, 2) * channel_entry(colour, three, source, 2, 2)
}

/// Which palette entry serves a colour better: entry 2 (`source` 1) if it is
/// nearer than entry 0, else entry 0.
pub open spec fn best_source(colour: (u8, u8, u8), three: bool) -> int {
    if table_error(colour, three, 1) < table_error(colour, three, 0) {
        1
    } else {
        0
    }
}

/// Endpoint `k` (0 or 1) that the tables give for a colour, as a 16-bit
/// colour.
pub open spec fn table_endpoint(colour: (u8, u8, u8), three: bool, source: int, k: int) -> int {
    pack565(
        channel_entry(colour, three, source, 0, k),
        channel_entry(colour, three, source, 1, k),
        channel_entry(colour, three, source, 2, k),
    )
}

/// Whether a single colour is stored with the palette of three colours: for
/// BC1, unless no pixel is transparent and the palette of four colours comes
/// nearer.
pub open spec fn single_uses_three(colour: (u8, u8, u8), is_bc1: bool, transparent: bool) -> bool {
    is_bc1 && (transparent || table_error(colour, false, best_source(colour, false))
        >= table_error(colour, true, best_source(colour, true)))
}

/// The fit of a set of one colour.
pub open spec fn single_fit(colour: (u8, u8, u8), is_bc1: bool, transparent: bool) -> ColourFitView {
    let three = single_uses_three(colour, is_bc1, transparent);
    let source = best_source(colour, three);
    ColourFitView {
        start: table_endpoint(colour, three, source, 0),
        end: table_endpoint(colour, three, source, 1),
        indices: Seq::new(16, |i: int| (2 * source) as u8),
        three_colour: three,
    }
}

/// The fit of a set without colours.
pub open spec fn empty_fit(is_bc1: bool) -> ColourFitView {
    ColourFitView { start: 0, end: 0, indices: Seq::new(16, |i: int| 0u8), three_colour: is_bc1 }
}

/// The 8-bit value of palette entry 0 (`source` 0) or 2 (`source` 1) of one
/// channel whose endpoints are `a` and `b`.
pub open spec fn entry_value(six_bits: bool, three: bool, a: int, b: int, source: int) -> int {
    let p = if six_bits { expand6(a) } else { expand5(a) };
    let q = if six_bits { expand6(b) } else { expand5(b) };
    if source == 0 {
        p
    } else if three {
        (p + q) / 2
    } else {
        (2 * p + q) / 3
    }
}

/// A 5-bit or 6-bit value as 8 bits.
pub open spec fn expanded(six_bits: bool, v: u32) -> u32 {
    if six_bits {
        (v << 2) | (v >> 4)
    } else {
        (v << 3) | (v >> 2)
    }
}

/// What holds of both answers in a table word for a target value: the
/// endpoints fit their bits, and each distance is that of the palette entry
/// from the target.
pub open spec fn word_is_sound(word: u32, target: u8, six_bits: bool, three: bool) -> bool {
    let t = target as u32;
    let a0 = word >> 24;
    let e0 = (word >> 4) & 0xF;
    let a1 = (word >> 16) & 0xFF;
    let b1 = (word >> 8) & 0xFF;
    let e1 = word & 0xF;
    let limit: u32 = if six_bits { 64 } else { 32 };
    let first = expanded(six_bits, a0);
    let parts: u32 = if three { 2 } else { 3 };
    let sum = if three {
        expanded(six_bits, a1) + expanded(six_bits, b1)
    } else {
        2 * expanded(six_bits, a1) + expanded(six_bits, b1)
    };
    &&& a0 < limit
    &&& a1 < limit
    &&& b1 < limit
    &&& (first == t + e0 || first + e0 == t)
    &&& ((parts * (t + e1) <= sum && sum < parts * (t + e1) + parts) || (e1 <= t && parts * (t
        - e1) <= sum && sum < parts * (t - e1) + parts))
    &&& e0 <= (if six_bits { 2u32 } else { 4u32 })
    &&& e1 <= 2
}

/// Every word of the table for 5 bits and three colours is sound.
#[verifier::rlimit(100)]
proof fn lemma_table_5_3(target: u8)
    by (bit_vector)
    ensures
        word_is_sound(table_5_3(target), target, false, true),
{
}

/// Every word of the table for 6 bits and three colours is sound.
#[verifier::rlimit(100)]
proof fn lemma_table_6_3(target: u8)
    by (bit_vector)
    ensures
        word_is_sound(table_6_3(target), target, true, true),
{
}

/// Every word of the table for 5 bits and four colours is sound.
#[verifier::rlimit(100)]
proof fn lemma_table_5_4(target: u8)
    by (bit_vector)
    ensures
        word_is_sound(table_5_4(target), target, false, false),
{
}

/// Every word of the table for 6 bits and four colours is sound.
#[verifier::rlimit(100)]
proof fn lemma_table_6_4(target: u8)
    by (bit_vector)
    ensures
        word_is_sound(table_6_4(target), target, true, false),
{
}

/// What holds of both answers in a table word with regard to the endpoints
/// `a` and `b`: their palette entries are not nearer to the target than
/// those of the answers.
pub open spec fn word_is_least(
    word: u32,
    target: u8,
    six_bits: bool,
    three: bool,
    a: u32,
    b: u32,
) -> bool {
    let t = target as u32;
    let e0 = (word >> 4) & 0xF;
    let e1 = word & 0xF;
    let first = expanded(six_bits, a);
    let parts: u32 = if three { 2 } else { 3 };
    let sum = if three {
        expanded(six_bits, a) + expanded(six_bits, b)
    } else {
        2 * expanded(six_bits, a) + expanded(six_bits, b)
    };
    &&& first >= t + e0 || first + e0 <= t
    &&& sum >= parts * (t + e1) || (e1 <= t && sum < parts * (t - e1) + parts)
}

/// No endpoints come nearer than the table for 5 bits and three colours.
#[verifier::rlimit(100)]
proof fn lemma_table_5_3_is_least(target: u8, a: u32, b: u32)
    by (bit_vector)
    requires
        a < 32,
        b < 32,
    ensures
        word_is_least(table_5_3(target), target, false, true, a, b),
{
}

/// No endpoints come nearer than the table for 6 bits and three colours.
#[verifier::rlimit(100)]
proof fn lemma_table_6_3_is_least(target: u8, a: u32, b: u32)
    by (bit_vector)
    requires
        a < 64,
        b < 64,
    ensures
        word_is_least(table_6_3(target), target, true, true, a, b),
{
}

/// No endpoints come nearer than the table for 5 bits and four colours.
#[verifier::rlimit(100)]
proof fn lemma_table_5_4_is_least(target: u8, a: u32, b: u32)
    by (bit_vector)
    requires
        a < 32,
        b < 32,
    ensures
        word_is_least(table_5_4(target), target, false, false, a, b),
{
}

/// No endpoints come nearer than the table for 6 bits and four colours.
#[verifier::rlimit(100)]
proof fn lemma_table_6_4_is_least(target: u8, a: u32, b: u32)
    by (bit_vector)
    requires
        a < 64,
        b < 64,
    ensures
        word_is_least(table_6_4(target), target, true, false, a, b),
{
}

/// Every word of the four tables is sound.
pub proof fn lemma_lookup_is_sound(six_bits: bool, three: bool, target: u8)
    ensures
        word_is_sound(lookup(six_bits, three, target), target, six_bits, three),
{
    if six_bits {
        if three {
            lemma_table_6_3(target);
        } else {
            lemma_table_6_4(target);
        }
    } else {
        if three {
            lemma_table_5_3(target);
        } else {
            lemma_table_5_4(target);
        }
    }
}

/// Repeating the leading bits of a value, written with shifts, is the value
/// that the colour block decoder computes.
proof fn lemma_expanded(v: u32)
    by (bit_vector)
    requires
        v < 64,
    ensures
        v < 32 ==> (v << 3) | (v >> 2) == v * 8 + v / 4,
        (v << 2) | (v >> 4) == v * 4 + v / 16,
{
}

/// The tables' answer for a target value has endpoints that fit their bits,
/// and its distance, which is at most 4, is that of the palette entry from
/// the target.
pub proof fn lemma_answer_is_near(six_bits: bool, three: bool, target: u8, source: int)
    requires
        0 <= source < 2,
    ensures
        ({
            let word = lookup(six_bits, three, target);
            let a = word_field(word, source, 0) as int;
            let b = word_field(word, source, 1) as int;
            let e = word_field(word, source, 2) as int;
            let limit: int = if six_bits { 64 } else { 32 };
            &&& 0 <= a < limit
            &&& 0 <= b < limit
            &&& 0 <= e <= 4
            &&& (entry_value(six_bits, three, a, b, source) == target + e || entry_value(
                six_bits,
                three,
                a,
                b,
                source,
            ) + e == target)
        }),
{
    let word = lookup(six_bits, three, target);
    lemma_lookup_is_sound(six_bits, three, target);
    lemma_expanded(word_field(word, 0, 0));
    lemma_expanded(word_field(word, 1, 0));
    lemma_expanded(word_field(word, 1, 1));
    lemma_expanded(0);
}

/// No endpoints that fit their bits have a palette entry nearer to the target
/// than the tables' answer.
pub proof fn lemma_answer_is_nearest(
    six_bits: bool,
    three: bool,
    target: u8,
    source: int,
    a: int,
    b: int,
)
    requires
        0 <= source < 2,
        0 <= a < (if six_bits { 64int } else { 32int }),
        0 <= b < (if six_bits { 64int } else { 32int }),
    ensures
        ({
            let e = word_field(lookup(six_bits, three, target), source, 2) as int;
            entry_value(six_bits, three, a, b, source) >= target + e || entry_value(
                six_bits,
                three,
                a,
                b,
                source,
            ) + e <= target
        }),
{
    if six_bits {
        if three {
            lemma_table_6_3_is_least(target, a as u32, b as u32);
        } else {
            lemma_table_6_4_is_least(target, a as u32, b as u32);
        }
    } else {
        if three {
            lemma_table_5_3_is_least(target, a as u32, b as u32);
        } else {
            lemma_table_5_4_is_least(target, a as u32, b as u32);
        }
    }
    lemma_expanded(a as u32);
    lemma_expanded(b as u32);
}

/// Looks up the table word for a target value.
fn lookup_word(six_bits: bool, three: bool, target: u8) -> (word: u32)
    ensures
        word == lookup(six_bits, three, target),
{
    if six_bits {
        if three {
            lookup_6_3(target)
        } else {
            lookup_6_4(target)
        }
    } else {
        if three {
            lookup_5_3(target)
        } else {
            lookup_5_4(target)
        }
    }
}

/// Finds the endpoints and the palette entry that the tables give for a
/// colour: returns the first endpoint, the second endpoint, the palette
/// index and the squared distance.
fn compute_end_points(colour: [u8; 3], three: bool) -> (r: (u16, u16, u8, u32))
    ensures
        ({
            let c = (colour[0], colour[1], colour[2]);
            let source = best_source(c, three);
            &&& r.0 == table_endpoint(c, three, source, 0)
            &&& r.1 == table_endpoint(c, three, source, 1)
            &&& r.2 == 2 * source
            &&& r.3 == table_error(c, three, source)
        }),
{
    let ghost c = (colour[0], colour[1], colour[2]);
    let red: u32 = lookup_word(false, three, colour[0]);
    let green: u32 = lookup_word(true, three, colour[1]);
    let blue: u32 = lookup_word(false, three, colour[2]);
    proof {
        lemma_answer_is_near(false, three, colour[0], 0);
        lemma_answer_is_near(false, three, colour[0], 1);
        lemma_answer_is_near(true, three, colour[1], 0);
        lemma_answer_is_near(true, three, colour[1], 1);
        lemma_answer_is_near(false, three, colour[2], 0);
        lemma_answer_is_near(false, three, colour[2], 1);
    }
    // check the error of each palette entry (endpoint or intermediate)
    let r0: u32 = (red >> 4) & 0xF;
    let g0: u32 = (green >> 4) & 0xF;
    let b0: u32 = (blue >> 4) & 0xF;
    let r1: u32 = red & 0xF;
    let g1: u32 = green & 0xF;
    let b1: u32 = blue & 0xF;
    assert(r0 * r0 + g0 * g0 + b0 * b0 <= 48 && r1 * r1 + g1 * g1 + b1 * b1 <= 48)
        by (nonlinear_arith)
        requires
            r0 <= 4,
            g0 <= 4,
            b0 <= 4,
            r1 <= 4,
            g1 <= 4,
            b1 <= 4,
    ;
    let error0: u32 = r0 * r0 + g0 * g0 + b0 * b0;
    let error1: u32 = r1 * r1 + g1 * g1 + b1 * b1;
    assert(error0 == table_error(c, three, 0));
    assert(error1 == table_error(c, three, 1));
    // keep the entry with the lower error
    if error1 < error0 {
        let start = pack_565(
            ((red >> 16) & 0xFF) as u8,
            ((green >> 16) & 0xFF) as u8,
            ((blue >> 16) & 0xFF) as u8,
        );
        let end = pack_565(
            ((red >> 8) & 0xFF) as u8,
            ((green >> 8) & 0xFF) as u8,
            ((blue >> 8) & 0xFF) as u8,
        );
        (start, end, 2, error1)
    } else {
        let start = pack_565((red >> 24) as u8, (green >> 24) as u8, (blue >> 24) as u8);
        (start, 0, 0, error0)
    }
}

/// Fits a set of one colour with the help of the tables.
///
/// * `colour`      - The colour as red, green and blue
/// * `is_bc1`      - Whether the palette of three colours may be used
/// * `transparent` - Whether the tile has transparent pixels, which only
///   the palette of three colours can store
pub fn single_colour_fit(colour: [u8; 3], is_bc1: bool, transparent: bool) -> (fit: ColourFit)
    ensures
        fit@ == single_fit((colour[0], colour[1], colour[2]), is_bc1, transparent),
{
    let ghost c = (colour[0], colour[1], colour[2]);
    let mut three: bool = false;
    let mut best = compute_end_points(colour, false);
    if is_bc1 {
        let with_three = compute_end_points(colour, true);
        if transparent || best.3 >= with_three.3 {
            best = with_three;
            three = true;
        }
    }
    let index: u8 = best.2;
    let indices: [u8; 16] = [
        index,
        index,
        index,
        index,
        index,
        index,
        index,
        index,
        index,
        index,
        index,
        index,
        index,
        index,
        index,
        index,
    ];
    let fit = ColourFit { start: best.0, end: best.1, indices, three_colour: three };
    assert(fit@.indices =~= single_fit(c, is_bc1, transparent).indices);
    fit
}

// ---------------------------------------------------------------------------
// From a fit to a block
// ---------------------------------------------------------------------------
/// The block that stores a fit of a colour set: every pixel gets the index
/// of its colour, and a pixel that was left out gets index 3. The palette of
/// three colours is used for BC1 where the set is transparent or the fit
/// asks for it, else the palette of four.
pub open spec fn fitted_block(set: ColourSetView, fit: ColourFitView, is_bc1: bool) -> Seq<u8> {
    let indices = remapped(set.remap, fit.indices);
    if is_bc1 && (set.transparent || fit.three_colour) {
        three_colour_block(fit.start, fit.end, indices)
    } else {
        four_colour_block(fit.start, fit.end, indices)
    }
}

/// Whether `bytes` is a colour block that is stored for a tile and the mask
/// of its valid pixels, where `fits` relates what the colour fitter is asked
/// to what it may answer.
///
/// A tile without colours is stored with both endpoints 0. A tile of one
/// colour is stored as the tables say, whatever the algorithm. For any other
/// tile the colour fitter is asked, with the colour set of the tile.
#[verifier::opaque]
pub open spec fn colour_block_encodes(
    tile: Seq<Seq<u8>>,
    mask: u32,
    params: Params,
    is_bc1: bool,
    fits: spec_fn(ColourSet, Params, bool, ColourFit) -> bool,
    bytes: Seq<u8>,
) -> bool {
    let set = colour_set_of(tile, mask, is_bc1, params.weigh_colour_by_alpha);
    if set.points.len() == 0 {
        bytes == fitted_block(set, empty_fit(is_bc1), is_bc1)
    } else if set.points.len() == 1 {
        bytes == fitted_block(set, single_fit(set.points[0], is_bc1, set.transparent), is_bc1)
    } else {
        exists|colours: ColourSet, fit: ColourFit|
            colours@ == set && #[trigger] fits(colours, params, is_bc1, fit) && bytes
                == fitted_block(set, fit@, is_bc1)
    }
}

/// Writes the block that stores a fit of a colour set.
fn write_fit(colours: &ColourSet, fit: &ColourFit, is_bc1: bool, output: &mut [u8])
    requires
        old(output).len() == 8,
    ensures
        final(output)@ == fitted_block(colours@, fit@, is_bc1),
{
    proof {
        use_type_invariant(fit);
    }
    // remap the indices
    let indices = colours.remap_indices(&fit.indices);
    // save the block
    if is_bc1 && (colours.is_transparent() || fit.three_colour) {
        write3(fit.start, fit.end, &indices, output);
    } else {
        write4(fit.start, fit.end, &indices, output);
    }
}

/// Compresses the colours of a tile into the 8 bytes of `output`.
///
/// * `rgba`   - The uncompressed block of pixels
/// * `mask`   - The valid pixel mask
/// * `params` - Additional compressor parameters
/// * `fitter` - Chooses the endpoints for two or more colours
/// * `output` - Storage for the colour block
/// * `is_bc1` - Whether the block may use the palette of three colours, and
///   pixels with alpha below 128 are stored as transparent
pub fn compress_bc1_bc2_bc3_colour_block<F: Fn(&ColourSet, Params, bool) -> ColourFit>(
    rgba: &[[u8; 4]; 16],
    mask: u32,
    params: Params,
    fitter: &F,
    output: &mut [u8],
    is_bc1: bool,
)
    requires
        old(output).len() == 8,
        fitter_accepts(*fitter),
    ensures
        final(output).len() == 8,
        colour_block_encodes(
            tile_view(*rgba),
            mask,
            params,
            is_bc1,
            fit_relation(*fitter),
            final(output)@,
        ),
{
    proof {
        reveal(colour_block_encodes);
    }
    // create the minimal point set
    let colours = ColourSet::new(rgba, mask, is_bc1, params.weigh_colour_by_alpha);
    // compress with appropriate compression algorithm
    if colours.count() == 1 {
        // The tables can't handle fully transparent blocks, hence the set has
        // to contain at least 1 colour. They are also not very useful for
        // anything more complex so we only use them for blocks of uniform
        // colour.
        let fit = single_colour_fit(colours.point(0), is_bc1, colours.is_transparent());
        write_fit(&colours, &fit, is_bc1, output);
    } else if colours.count() == 0 {
        let fit = ColourFit { start: 0, end: 0, indices: [0u8; 16], three_colour: is_bc1 };
        assert(fit@.indices =~= empty_fit(is_bc1).indices);
        write_fit(&colours, &fit, is_bc1, output);
    } else {
        let fit = fitter(&colours, params, is_bc1);
        write_fit(&colours, &fit, is_bc1, output);
        assert(fit_relation(*fitter)(colours, params, is_bc1, fit));
    }
}

} // verus!
