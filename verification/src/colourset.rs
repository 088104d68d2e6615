//! The set of distinct colours of a tile, with a weight for each colour and
//! the colour that each pixel of the tile maps to.

use vstd::prelude::*;
use crate::tile::{agree_where_enabled, mask_bit, mask_has, tile_view};

verus! {

/// The weight of one whole pixel. Weights are counted in units of
/// 1/65280, so that both 1/256 and every multiple of 1/255 are whole numbers.
pub const WEIGHT_ONE: u32 = 65280;

/// What a colour set holds: its colours in the order in which they first
/// appear in the tile, the weight of each, for each pixel the position of its
/// colour (-1 for a pixel that is left out), and whether a pixel was left out
/// for being transparent.
pub struct ColourSetView {
    pub points: Seq<(u8, u8, u8)>,
    pub weights: Seq<nat>,
    pub remap: Seq<int>,
    pub transparent: bool,
}

/// The weight of a pixel: one, or with weighting by alpha the pixel's alpha
/// as a fraction of 255, and 1/256 for alpha 0.
pub open spec fn pixel_weight(alpha: u8, weigh_by_alpha: bool) -> nat {
    if !weigh_by_alpha {
        65280
    } else if alpha == 0 {
        255
    } else {
        (alpha * 256) as nat
    }
}

/// The colour set without any pixel.
pub open spec fn empty_set() -> ColourSetView {
    ColourSetView { points: seq![], weights: seq![], remap: seq![], transparent: false }
}

/// A colour set extended by the next pixel of the tile. A pixel that is not
/// enabled is left out; so is, for BC1, a pixel with alpha below 128, which
/// marks the set as transparent. Any other pixel adds its weight to its
/// colour, which joins the set if it is new.
pub open spec fn with_pixel(
    set: ColourSetView,
    pixel: Seq<u8>,
    enabled: bool,
    is_bc1: bool,
    weigh_by_alpha: bool,
) -> ColourSetView {
    let colour = (pixel[0], pixel[1], pixel[2]);
    let weight = pixel_weight(pixel[3], weigh_by_alpha);
    if !enabled {
        ColourSetView {
            points: set.points,
            weights: set.weights,
            remap: set.remap.push(-1),
            transparent: set.transparent,
        }
    } else if is_bc1 && pixel[3] < 128 {
        ColourSetView {
            points: set.points,
            weights: set.weights,
            remap: set.remap.push(-1),
            transparent: true,
        }
    } else if set.points.contains(colour) {
        let entry = set.points.index_of(colour);
        ColourSetView {
            points: set.points,
            weights: set.weights.update(entry, set.weights[entry] + weight),
            remap: set.remap.push(entry),
            transparent: set.transparent,
        }
    } else {
        ColourSetView {
            points: set.points.push(colour),
            weights: set.weights.push(weight),
            remap: set.remap.push(set.points.len() as int),
            transparent: set.transparent,
        }
    }
}

/// The colour set of the first `n` pixels of a tile.
pub open spec fn colour_set_upto(
    tile: Seq<Seq<u8>>,
    mask: u32,
    is_bc1: bool,
    weigh_by_alpha: bool,
    n: int,
) -> ColourSetView
    decreases n,
{
    if n <= 0 {
        empty_set()
    } else {
        with_pixel(
            colour_set_upto(tile, mask, is_bc1, weigh_by_alpha, n - 1),
            tile[n - 1],
            mask_bit(mask, n - 1),
            is_bc1,
            weigh_by_alpha,
        )
    }
}

/// The colour set of a tile.
pub open spec fn colour_set_of(
    tile: Seq<Seq<u8>>,
    mask: u32,
    is_bc1: bool,
    weigh_by_alpha: bool,
) -> ColourSetView {
    colour_set_upto(tile, mask, is_bc1, weigh_by_alpha, 16)
}

/// Whether pixel `i` of a tile takes part in its colour set.
pub open spec fn takes_part(tile: Seq<Seq<u8>>, mask: u32, is_bc1: bool, i: int) -> bool {
    mask_bit(mask, i) && !(is_bc1 && tile[i][3] < 128)
}

/// The colour of pixel `i` of a tile.
pub open spec fn colour_at(tile: Seq<Seq<u8>>, i: int) -> (u8, u8, u8) {
    (tile[i][0], tile[i][1], tile[i][2])
}

/// Whether one of the first `n` pixels takes part and maps to colour `e`.
pub open spec fn entry_has_pixel(
    set: ColourSetView,
    tile: Seq<Seq<u8>>,
    mask: u32,
    is_bc1: bool,
    n: int,
    e: int,
) -> bool {
    exists|i: int| 0 <= i < n && takes_part(tile, mask, is_bc1, i) && #[trigger] set.remap[i] == e
}

/// What holds of the colour set of the first `n` pixels.
pub open spec fn set_is_sound(
    set: ColourSetView,
    tile: Seq<Seq<u8>>,
    mask: u32,
    is_bc1: bool,
    n: int,
) -> bool {
    &&& set.points.len() == set.weights.len()
    &&& set.points.len() <= n
    &&& set.remap.len() == n
    &&& set.points.no_duplicates()
    &&& forall|i: int|
        0 <= i < n ==> (if takes_part(tile, mask, is_bc1, i) {
            0 <= #[trigger] set.remap[i] < set.points.len() && set.points[set.remap[i]]
                == colour_at(tile, i)
        } else {
            set.remap[i] == -1
        })
    &&& forall|e: int|
        0 <= e < set.points.len() ==> #[trigger] entry_has_pixel(set, tile, mask, is_bc1, n, e)
    &&& forall|e: int| 0 <= e < set.points.len() ==> 0 < #[trigger] set.weights[e] <= 65280 * n
    &&& set.transparent <==> exists|i: int|
        0 <= i < n && mask_bit(mask, i) && is_bc1 && #[trigger] tile[i][3] < 128
}

/// The colours of a set are distinct, every pixel that takes part maps to
/// its own colour, every colour has a pixel that maps to it and a positive
/// weight, and the set is transparent exactly if a pixel was left out for
/// its alpha.
pub proof fn lemma_colour_set_is_sound(
    tile: Seq<Seq<u8>>,
    mask: u32,
    is_bc1: bool,
    weigh_by_alpha: bool,
    n: int,
)
    requires
        0 <= n <= 16,
    ensures
        set_is_sound(colour_set_upto(tile, mask, is_bc1, weigh_by_alpha, n), tile, mask, is_bc1, n),
    decreases n,
{
    let set = colour_set_upto(tile, mask, is_bc1, weigh_by_alpha, n);
    if n > 0 {
        lemma_colour_set_is_sound(tile, mask, is_bc1, weigh_by_alpha, n - 1);
        let prev = colour_set_upto(tile, mask, is_bc1, weigh_by_alpha, n - 1);
        let pixel = tile[n - 1];
        let colour = colour_at(tile, n - 1);
        assert(set == with_pixel(prev, pixel, mask_bit(mask, n - 1), is_bc1, weigh_by_alpha));
        assert forall|e: int| 0 <= e < set.points.len() implies #[trigger] entry_has_pixel(
            set,
            tile,
            mask,
            is_bc1,
            n,
            e,
        ) by {
            if e < prev.points.len() {
                assert(entry_has_pixel(prev, tile, mask, is_bc1, n - 1, e));
                let i = choose|i: int|
                    0 <= i < n - 1 && takes_part(tile, mask, is_bc1, i) && #[trigger] prev.remap[i]
                        == e;
                assert(set.remap[i] == e);
            } else {
                assert(set.remap[n - 1] == e);
            }
        }
        if set.transparent {
            if prev.transparent {
                let i = choose|i: int|
                    0 <= i < n - 1 && mask_bit(mask, i) && is_bc1 && #[trigger] tile[i][3] < 128;
                assert(0 <= i < n && mask_bit(mask, i) && is_bc1 && tile[i][3] < 128);
            } else {
                assert(mask_bit(mask, n - 1) && is_bc1 && tile[n - 1][3] < 128);
            }
        }
        assert(set.points.no_duplicates());
        assert(forall|e: int| 0 <= e < set.points.len() ==> 0 < #[trigger] set.weights[e] <= 65280 * n);
    }
}

/// The sum of the weights of those of the first `n` pixels that map to
/// colour `e`.
pub open spec fn weight_of_pixels(
    tile: Seq<Seq<u8>>,
    remap: Seq<int>,
    weigh_by_alpha: bool,
    e: int,
    n: int,
) -> nat
    decreases n,
{
    if n <= 0 {
        0
    } else {
        weight_of_pixels(tile, remap, weigh_by_alpha, e, n - 1) + if remap[n - 1] == e {
            pixel_weight(tile[n - 1][3], weigh_by_alpha)
        } else {
            0
        }
    }
}

/// The weight of the first `n` pixels depends on their colours only.
proof fn lemma_weight_of_pixels_reads_first(
    tile: Seq<Seq<u8>>,
    first: Seq<int>,
    second: Seq<int>,
    weigh_by_alpha: bool,
    e: int,
    n: int,
)
    requires
        0 <= n <= first.len(),
        n <= second.len(),
        forall|i: int| 0 <= i < n ==> first[i] == second[i],
    ensures
        weight_of_pixels(tile, first, weigh_by_alpha, e, n) == weight_of_pixels(
            tile,
            second,
            weigh_by_alpha,
            e,
            n,
        ),
    decreases n,
{
    if n > 0 {
        lemma_weight_of_pixels_reads_first(tile, first, second, weigh_by_alpha, e, n - 1);
    }
}

/// The weight of every colour of a set is the sum of the weights of the
/// pixels that map to it: without weighting by alpha, their number.
pub proof fn lemma_weights_are_sums(
    tile: Seq<Seq<u8>>,
    mask: u32,
    is_bc1: bool,
    weigh_by_alpha: bool,
    n: int,
    e: int,
)
    requires
        0 <= n <= 16,
        0 <= e < colour_set_upto(tile, mask, is_bc1, weigh_by_alpha, n).points.len(),
    ensures
        colour_set_upto(tile, mask, is_bc1, weigh_by_alpha, n).weights[e] == weight_of_pixels(
            tile,
            colour_set_upto(tile, mask, is_bc1, weigh_by_alpha, n).remap,
            weigh_by_alpha,
            e,
            n,
        ),
    decreases n,
{
    let set = colour_set_upto(tile, mask, is_bc1, weigh_by_alpha, n);
    lemma_colour_set_is_sound(tile, mask, is_bc1, weigh_by_alpha, n);
    if n > 0 {
        let prev = colour_set_upto(tile, mask, is_bc1, weigh_by_alpha, n - 1);
        lemma_colour_set_is_sound(tile, mask, is_bc1, weigh_by_alpha, n - 1);
        lemma_weight_of_pixels_reads_first(tile, set.remap, prev.remap, weigh_by_alpha, e, n - 1);
        if e < prev.points.len() {
            lemma_weights_are_sums(tile, mask, is_bc1, weigh_by_alpha, n - 1, e);
        } else {
            lemma_no_pixel_of_new_colour(tile, prev.remap, weigh_by_alpha, e, n - 1);
        }
    }
}

/// No pixel has mapped to a colour before it joined the set.
proof fn lemma_no_pixel_of_new_colour(
    tile: Seq<Seq<u8>>,
    remap: Seq<int>,
    weigh_by_alpha: bool,
    e: int,
    n: int,
)
    requires
        0 <= n <= remap.len(),
        forall|i: int| 0 <= i < n ==> remap[i] < e,
    ensures
        weight_of_pixels(tile, remap, weigh_by_alpha, e, n) == 0,
    decreases n,
{
    if n > 0 {
        lemma_no_pixel_of_new_colour(tile, remap, weigh_by_alpha, e, n - 1);
    }
}

/// The colour set of a tile does not depend on the pixels that the mask
/// leaves out.
pub proof fn lemma_colour_set_ignores_masked(
    first: Seq<Seq<u8>>,
    second: Seq<Seq<u8>>,
    mask: u32,
    is_bc1: bool,
    weigh_by_alpha: bool,
    n: int,
)
    requires
        agree_where_enabled(first, second, mask),
        0 <= n <= 16,
    ensures
        colour_set_upto(first, mask, is_bc1, weigh_by_alpha, n) == colour_set_upto(
            second,
            mask,
            is_bc1,
            weigh_by_alpha,
            n,
        ),
    decreases n,
{
    if n > 0 {
        lemma_colour_set_ignores_masked(first, second, mask, is_bc1, weigh_by_alpha, n - 1);
        if mask_bit(mask, n - 1) {
            assert(first[n - 1] == second[n - 1]);
        }
    }
}

/// The set of distinct colours of a tile.
pub struct ColourSet {
    count: usize,
    points: [[u8; 3]; 16],
    weights: [u32; 16],
    remap: [u8; 16],
    transparent: bool,
}

/// The contents of the fields of a colour set that describes `n` pixels.
spec fn fields_view(
    count: usize,
    points: [[u8; 3]; 16],
    weights: [u32; 16],
    remap: [u8; 16],
    transparent: bool,
    n: int,
) -> ColourSetView {
    ColourSetView {
        points: Seq::new(count as nat, |e: int| (points[e][0], points[e][1], points[e][2])),
        weights: Seq::new(count as nat, |e: int| weights[e] as nat),
        remap: Seq::new(
            n as nat,
            |i: int|
                if remap[i] < 16 {
                    remap[i] as int
                } else {
                    -1
                },
        ),
        transparent,
    }
}

impl View for ColourSet {
    type V = ColourSetView;

    closed spec fn view(&self) -> ColourSetView {
        fields_view(self.count, self.points, self.weights, self.remap, self.transparent, 16)
    }
}

impl ColourSet {
    /// The set is the colour set of some tile.
    #[verifier::type_invariant]
    pub closed spec fn wf(self) -> bool {
        &&& self.count <= 16
        &&& forall|i: int| 0 <= i < 16 ==> self.remap[i] < self.count || self.remap[i] == 255
    }

    /// The number of colours in the set.
    pub open spec fn len(&self) -> nat {
        self@.points.len()
    }

    /// Builds the colour set of a tile.
    ///
    /// * `rgba`   - The tile
    /// * `mask`   - The valid pixel mask
    /// * `is_bc1` - Whether pixels with alpha below 128 are left out
    /// * `weigh_by_alpha` - Whether a pixel's weight is its alpha
    pub fn new(rgba: &[[u8; 4]; 16], mask: u32, is_bc1: bool, weigh_by_alpha: bool) -> (set: Self)
        ensures
            set.wf(),
            set@ == colour_set_of(tile_view(*rgba), mask, is_bc1, weigh_by_alpha),
    {
        let ghost tile = tile_view(*rgba);
        let mut count: usize = 0;
        let mut points: [[u8; 3]; 16] = [[0u8; 3]; 16];
        let mut weights: [u32; 16] = [0u32; 16];
        let mut remap: [u8; 16] = [255u8; 16];
        let mut transparent: bool = false;
        proof {
            let start = fields_view(count, points, weights, remap, transparent, 0);
            assert(start.points =~= empty_set().points);
            assert(start.weights =~= empty_set().weights);
            assert(start.remap =~= empty_set().remap);
        }
        // create the minimal set
        let mut i: usize = 0;
        while i < 16
            invariant
                i <= 16,
                count <= i,
                tile == tile_view(*rgba),
                fields_view(count, points, weights, remap, transparent, i as int)
                    == colour_set_upto(tile, mask, is_bc1, weigh_by_alpha, i as int),
                forall|k: int| 0 <= k < i ==> remap[k] < count || remap[k] == 255,
                forall|e: int| 0 <= e < count ==> weights[e] <= 65280 * i,
            decreases 16 - i,
        {
            let ghost before = fields_view(count, points, weights, remap, transparent, i as int);
            let ghost pixel = tile[i as int];
            proof {
                lemma_colour_set_is_sound(tile, mask, is_bc1, weigh_by_alpha, i as int);
                assert(pixel == rgba[i as int]@);
            }
            if !mask_has(mask, i) {
                // this pixel is not enabled
                remap[i] = 255;
                proof {
                    let after = fields_view(count, points, weights, remap, transparent, i + 1);
                    let want = with_pixel(before, pixel, false, is_bc1, weigh_by_alpha);
                    assert(after.points =~= want.points);
                    assert(after.weights =~= want.weights);
                    assert(after.remap =~= want.remap);
                }
            } else if is_bc1 && rgba[i][3] < 128 {
                // transparent pixels are left out when using BC1
                remap[i] = 255;
                transparent = true;
                proof {
                    let after = fields_view(count, points, weights, remap, transparent, i + 1);
                    let want = with_pixel(before, pixel, true, is_bc1, weigh_by_alpha);
                    assert(after.points =~= want.points);
                    assert(after.weights =~= want.weights);
                    assert(after.remap =~= want.remap);
                }
            } else {
                let red: u8 = rgba[i][0];
                let green: u8 = rgba[i][1];
                let blue: u8 = rgba[i][2];
                let alpha: u8 = rgba[i][3];
                let ghost colour = (red, green, blue);
                // ensure there is always non-zero weight even for zero alpha
                let weight: u32 = if !weigh_by_alpha {
                    WEIGHT_ONE
                } else if alpha == 0 {
                    255
                } else {
                    alpha as u32 * 256
                };
                // loop over previous points for a match
                let mut j: usize = 0;
                while j < count && !(points[j][0] == red && points[j][1] == green && points[j][2]
                    == blue)
                    invariant
                        j <= count,
                        count <= 16,
                        before == fields_view(count, points, weights, remap, transparent, i as int),
                        colour == (red, green, blue),
                        forall|e: int| 0 <= e < j ==> before.points[e] != colour,
                    decreases count - j,
                {
                    assert(before.points[j as int] == (
                        points[j as int][0],
                        points[j as int][1],
                        points[j as int][2],
                    ));
                    j += 1;
                }
                if j < count {
                    // map to this point and increase the weight
                    proof {
                        assert(before.points[j as int] == colour);
                        assert(before.points.contains(colour));
                        assert(before.points.index_of(colour) == j);
                    }
                    weights[j] = weights[j] + weight;
                    remap[i] = j as u8;
                    proof {
                        let after = fields_view(count, points, weights, remap, transparent, i + 1);
                        let want = with_pixel(before, pixel, true, is_bc1, weigh_by_alpha);
                        assert(after.points =~= want.points);
                        assert(after.weights =~= want.weights);
                        assert(after.remap =~= want.remap);
                    }
                } else {
                    // allocate a new point
                    proof {
                        assert(!before.points.contains(colour));
                    }
                    points[count] = [red, green, blue];
                    weights[count] = weight;
                    remap[i] = count as u8;
                    count += 1;
                    proof {
                        let after = fields_view(count, points, weights, remap, transparent, i + 1);
                        let want = with_pixel(before, pixel, true, is_bc1, weigh_by_alpha);
                        assert(after.points =~= want.points);
                        assert(after.weights =~= want.weights);
                        assert(after.remap =~= want.remap);
                    }
                }
            }
            i += 1;
        }
        ColourSet { count, points, weights, remap, transparent }
    }

    /// Returns the number of colours in the set.
    pub fn count(&self) -> (count: usize)
        ensures
            count == self.len(),
            count <= 16,
    {
        proof {
            use_type_invariant(self);
        }
        self.count
    }

    /// Returns colour `entry` of the set as red, green and blue.
    pub fn point(&self, entry: usize) -> (colour: [u8; 3])
        requires
            entry < self.len(),
        ensures
            (colour[0], colour[1], colour[2]) == self@.points[entry as int],
    {
        proof {
            use_type_invariant(self);
        }
        self.points[entry]
    }

    /// Returns the weight of colour `entry` of the set, in units of
    /// 1/`WEIGHT_ONE`.
    pub fn weight(&self, entry: usize) -> (weight: u32)
        requires
            entry < self.len(),
        ensures
            weight == self@.weights[entry as int],
    {
        proof {
            use_type_invariant(self);
        }
        self.weights[entry]
    }

    /// Returns whether a pixel was left out of the set for being
    /// transparent.
    pub fn is_transparent(&self) -> (transparent: bool)
        ensures
            transparent == self@.transparent,
    {
        self.transparent
    }

    /// Turns one palette index per colour of the set into one per pixel of
    /// the tile. Pixels that were left out get index 3.
    pub fn remap_indices(&self, source: &[u8; 16]) -> (target: [u8; 16])
        ensures
            target@ == remapped(self@.remap, source@),
            (forall|e: int| 0 <= e < 16 ==> source[e] < 4) ==> (forall|i: int|
                0 <= i < 16 ==> target[i] < 4),
    {
        proof {
            use_type_invariant(self);
        }
        let mut target: [u8; 16] = [3u8; 16];
        let mut i: usize = 0;
        while i < 16
            invariant
                i <= 16,
                self.wf(),
                forall|k: int| 0 <= k < i ==> target[k] == remapped(self@.remap, source@)[k],
                (forall|e: int| 0 <= e < 16 ==> source[e] < 4) ==> (forall|k: int|
                    0 <= k < i ==> target[k] < 4),
            decreases 16 - i,
        {
            let j: u8 = self.remap[i];
            if j == 255 {
                target[i] = 3;
            } else {
                target[i] = source[j as usize];
            }
            i += 1;
        }
        assert(target@ =~= remapped(self@.remap, source@));
        target
    }
}

/// One palette index per pixel from one per colour: that of the pixel's
/// colour, and 3 for a pixel that was left out.
pub open spec fn remapped(remap: Seq<int>, source: Seq<u8>) -> Seq<u8> {
    Seq::new(
        16,
        |i: int|
            if remap[i] < 0 {
                3u8
            } else {
                source[remap[i]]
            },
    )
}

} // verus!
