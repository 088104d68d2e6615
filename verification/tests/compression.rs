use squish::colourblock::{pack_565, unpack_565};
use squish::colourfit::ColourFit;
use squish::colourset::{ColourSet, WEIGHT_ONE};
use squish::{
    Algorithm, Encoder, Params, BC1, BC2, BC3, COLOUR_WEIGHTS_PERCEPTUAL, COLOUR_WEIGHTS_UNIFORM,
    COLOUR_WEIGHT_ONE,
};

// A colour fitter in floating point for the tests below: range fit and
// cluster fit.

type Vec3 = [f32; 3];
type Vec4 = [f32; 4];

/// How many times the cluster fit may reorder the colours along a new axis.
const MAX_ITERATIONS: usize = 8;

/// The colours of a set as points in the unit cube, with their weights.
struct Points {
    count: usize,
    values: [Vec3; 16],
    weights: [f32; 16],
}

fn points_of(set: &ColourSet) -> Points {
    let mut points = Points { count: set.count(), values: [[0.0; 3]; 16], weights: [0.0; 16] };
    for e in 0..points.count {
        let colour = set.point(e);
        points.values[e] =
            [colour[0] as f32 / 255.0, colour[1] as f32 / 255.0, colour[2] as f32 / 255.0];
        points.weights[e] = set.weight(e) as f32 / WEIGHT_ONE as f32;
    }
    points
}

fn dot(a: Vec3, b: Vec3) -> f32 {
    a[0] * b[0] + a[1] * b[1] + a[2] * b[2]
}

/// The weighted covariance of the points: xx, xy, xz, yy, yz, zz.
fn weighted_covariance(points: &Points) -> [f32; 6] {
    // compute the centroid
    let mut total = 0.0f32;
    let mut centroid = [0.0f32; 3];
    for i in 0..points.count {
        total += points.weights[i];
        for c in 0..3 {
            centroid[c] += points.weights[i] * points.values[i][c];
        }
    }
    if total > f32::EPSILON {
        for c in 0..3 {
            centroid[c] /= total;
        }
    }
    // accumulate the covariance matrix
    let mut covariance = [0.0f32; 6];
    for i in 0..points.count {
        let a = [
            points.values[i][0] - centroid[0],
            points.values[i][1] - centroid[1],
            points.values[i][2] - centroid[2],
        ];
        let b = [points.weights[i] * a[0], points.weights[i] * a[1], points.weights[i] * a[2]];
        covariance[0] += a[0] * b[0];
        covariance[1] += a[0] * b[1];
        covariance[2] += a[0] * b[2];
        covariance[3] += a[1] * b[1];
        covariance[4] += a[1] * b[2];
        covariance[5] += a[2] * b[2];
    }
    covariance
}

/// The principal axis of a covariance matrix by power iteration: a fixed
/// number of steps from (1, 1, 1), and (1, 1, 1) where the matrix vanishes.
fn principal_component(m: &[f32; 6]) -> Vec3 {
    let mut v = [1.0f32; 3];
    for _ in 0..8 {
        let w = [
            m[0] * v[0] + m[1] * v[1] + m[2] * v[2],
            m[1] * v[0] + m[3] * v[1] + m[4] * v[2],
            m[2] * v[0] + m[4] * v[1] + m[5] * v[2],
        ];
        let a = w[0].max(w[1]).max(w[2]);
        if !(a.abs() > f32::EPSILON * f32::EPSILON) {
            return [1.0; 3];
        }
        v = [w[0] / a, w[1] / a, w[2] / a];
    }
    v
}

/// A colour of 5, 6 and 5 bits, and the point of the unit cube that it
/// decodes to.
#[derive(Clone, Copy)]
struct GridColour {
    packed: u16,
    point: Vec3,
}

impl GridColour {
    fn black() -> GridColour {
        GridColour { packed: 0, point: [0.0; 3] }
    }
}

/// Clamps a point to the unit cube and rounds it to the nearest colour of 5,
/// 6 and 5 bits.
fn snap_to_grid(colour: Vec3) -> GridColour {
    let limits = [31u8, 63, 31];
    let mut parts = [0u8; 3];
    for c in 0..3 {
        let clamped = colour[c].clamp(0.0, 1.0);
        parts[c] = ((limits[c] as f32 * clamped + 0.5) as u8).min(limits[c]);
    }
    let packed = pack_565(parts[0], parts[1], parts[2]);
    let decoded = unpack_565(packed);
    let point =
        [decoded[0] as f32 / 255.0, decoded[1] as f32 / 255.0, decoded[2] as f32 / 255.0];
    GridColour { packed, point }
}

/// Endpoints, one palette index per colour, and the error of a candidate.
#[derive(Clone, Copy)]
struct Candidate {
    start: GridColour,
    end: GridColour,
    indices: [u8; 16],
    three_colour: bool,
    error: f32,
}

impl Candidate {
    fn none() -> Candidate {
        Candidate {
            start: GridColour::black(),
            end: GridColour::black(),
            indices: [0; 16],
            three_colour: false,
            error: f32::MAX,
        }
    }
}

// ---------------------------------------------------------------------------
// Range fit
// ---------------------------------------------------------------------------
/// The endpoints of the range fit: the colours that lie first and last along
/// the principal axis, on the grid.
fn range_endpoints(points: &Points) -> (GridColour, GridColour) {
    let principle = principal_component(&weighted_covariance(points));
    let mut start = [0.0f32; 3];
    let mut end = [0.0f32; 3];
    if points.count > 0 {
        start = points.values[0];
        end = points.values[0];
        let mut min = dot(points.values[0], principle);
        let mut max = min;
        for i in 1..points.count {
            let val = dot(points.values[i], principle);
            if val < min {
                start = points.values[i];
                min = val;
            } else if val > max {
                end = points.values[i];
                max = val;
            }
        }
    }
    (snap_to_grid(start), snap_to_grid(end))
}

/// Maps every colour to the nearest of the given palette entries; among
/// equally near entries the first wins.
fn range_candidate(
    points: &Points,
    start: GridColour,
    end: GridColour,
    codes: &[Vec3],
    metric: Vec3,
    three_colour: bool,
) -> Candidate {
    let mut candidate = Candidate { start, end, indices: [0; 16], three_colour, error: 0.0 };
    for i in 0..points.count {
        let mut dist = f32::MAX;
        let mut idx = 0;
        for (j, code) in codes.iter().enumerate() {
            let delta = [
                metric[0] * (points.values[i][0] - code[0]),
                metric[1] * (points.values[i][1] - code[1]),
                metric[2] * (points.values[i][2] - code[2]),
            ];
            let d = dot(delta, delta);
            if d < dist {
                dist = d;
                idx = j;
            }
        }
        candidate.indices[i] = idx as u8;
        candidate.error += dist;
    }
    candidate
}

fn lerp(a: Vec3, b: Vec3, wa: f32, wb: f32) -> Vec3 {
    [wa * a[0] + wb * b[0], wa * a[1] + wb * b[1], wa * a[2] + wb * b[2]]
}

fn range_fit(points: &Points, metric: Vec3, try_three: bool, try_four: bool) -> Candidate {
    let (start, end) = range_endpoints(points);
    let mut best = Candidate::none();
    if try_three {
        let codes = [start.point, end.point, lerp(start.point, end.point, 0.5, 0.5)];
        let candidate = range_candidate(points, start, end, &codes, metric, true);
        if candidate.error < best.error {
            best = candidate;
        }
    }
    if try_four {
        let codes = [
            start.point,
            end.point,
            lerp(start.point, end.point, 2.0 / 3.0, 1.0 / 3.0),
            lerp(start.point, end.point, 1.0 / 3.0, 2.0 / 3.0),
        ];
        let candidate = range_candidate(points, start, end, &codes, metric, false);
        if candidate.error < best.error {
            best = candidate;
        }
    }
    best
}

// ---------------------------------------------------------------------------
// Cluster fit
// ---------------------------------------------------------------------------
fn add4(a: Vec4, b: Vec4) -> Vec4 {
    [a[0] + b[0], a[1] + b[1], a[2] + b[2], a[3] + b[3]]
}

fn sub4(a: Vec4, b: Vec4) -> Vec4 {
    [a[0] - b[0], a[1] - b[1], a[2] - b[2], a[3] - b[3]]
}

fn scale4(a: Vec4, xyz: f32, w: f32) -> Vec4 {
    [a[0] * xyz, a[1] * xyz, a[2] * xyz, a[3] * w]
}

/// The colours in the order in which they lie along an axis, with the sums
/// that the least-squares solution needs.
struct AxisOrder {
    order: [[u8; 16]; MAX_ITERATIONS],
    points_weights: [Vec4; 16],
    xsum_wsum: Vec4,
}

impl AxisOrder {
    /// Sorts the colours along `axis`. Returns false if an earlier iteration
    /// had the same order.
    fn construct(&mut self, points: &Points, axis: Vec3, iteration: usize) -> bool {
        let count = points.count;
        // build the list of dot products
        let mut dps = [0.0f32; 16];
        for i in 0..count {
            dps[i] = dot(points.values[i], axis);
            self.order[iteration][i] = i as u8;
        }
        // stable sort using them
        for i in 0..count {
            let mut j = i;
            while j > 0 && dps[j] < dps[j - 1] {
                dps.swap(j, j - 1);
                self.order[iteration].swap(j, j - 1);
                j -= 1;
            }
        }
        // check this ordering is unique
        for it in 0..iteration {
            if self.order[it][..count] == self.order[iteration][..count] {
                return false;
            }
        }
        // copy the ordering and weight all the points
        self.xsum_wsum = [0.0; 4];
        for i in 0..count {
            let j = self.order[iteration][i] as usize;
            let w = points.weights[j];
            let x = [
                points.values[j][0] * w,
                points.values[j][1] * w,
                points.values[j][2] * w,
                w,
            ];
            self.points_weights[i] = x;
            self.xsum_wsum = add4(self.xsum_wsum, x);
        }
        true
    }
}

/// The least-squares endpoints for given sums, on the grid, and their error
/// without its constant part. Returns `None` where the equations have no
/// single solution.
fn solve(
    alphax_sum: Vec4,
    betax_sum: Vec4,
    alphabeta_sum: f32,
    metric: Vec3,
) -> Option<(GridColour, GridColour, f32)> {
    let alpha2_sum = alphax_sum[3];
    let beta2_sum = betax_sum[3];
    let determinant = alpha2_sum * beta2_sum - alphabeta_sum * alphabeta_sum;
    let factor = 1.0 / determinant;
    if !factor.is_finite() {
        return None;
    }
    let mut a = [0.0f32; 3];
    let mut b = [0.0f32; 3];
    for c in 0..3 {
        a[c] = (alphax_sum[c] * beta2_sum - betax_sum[c] * alphabeta_sum) * factor;
        b[c] = (betax_sum[c] * alpha2_sum - alphax_sum[c] * alphabeta_sum) * factor;
    }
    // clamp to the grid
    let start = snap_to_grid(a);
    let end = snap_to_grid(b);
    let (a, b) = (start.point, end.point);
    // compute the error (we skip the constant xxsum)
    let mut error = 0.0f32;
    for c in 0..3 {
        let e1 = a[c] * a[c] * alpha2_sum + b[c] * b[c] * beta2_sum;
        let e2 = a[c] * b[c] * alphabeta_sum - a[c] * alphax_sum[c];
        let e3 = e2 - b[c] * betax_sum[c];
        let e4 = 2.0 * e3 + e1;
        // apply the metric to the error term
        error += e4 * metric[c];
    }
    if error.is_nan() {
        return None;
    }
    Some((start, end, error))
}

/// The best split of the ordered colours into the palette entries 0, 2 and 1
/// of the palette of three colours.
fn cluster_fit_three(
    points: &Points,
    principle: Vec3,
    metric: Vec3,
    iteration_count: usize,
    best_so_far: f32,
) -> Candidate {
    let count = points.count;
    let mut ordering =
        AxisOrder { order: [[0; 16]; MAX_ITERATIONS], points_weights: [[0.0; 4]; 16], xsum_wsum: [0.0; 4] };
    // prepare an ordering using the principle axis
    ordering.construct(points, principle, 0);
    // check all possible clusters and iterate on the total order
    let mut best = Candidate::none();
    best.three_colour = true;
    best.error = best_so_far;
    let mut found = false;
    let mut best_iteration = 0;
    let mut best_i = 0;
    let mut best_j = 0;
    // loop over iterations (we avoid the case that all points in first or last cluster)
    let mut iteration = 0;
    loop {
        // first cluster [0,i) is at the start
        let mut part0 = [0.0f32; 4];
        for i in 0..count {
            // second cluster [i,j) is half along
            let mut part1 = if i == 0 { ordering.points_weights[0] } else { [0.0; 4] };
            let mut j = if i == 0 { 1 } else { i };
            loop {
                // last cluster [j,count) is at the end
                let part2 = sub4(sub4(ordering.xsum_wsum, part1), part0);
                // compute least squares terms directly
                let alphax_sum = add4(scale4(part1, 0.5, 0.25), part0);
                let betax_sum = add4(scale4(part1, 0.5, 0.25), part2);
                let alphabeta_sum = part1[3] * 0.25;
                if let Some((a, b, error)) = solve(alphax_sum, betax_sum, alphabeta_sum, metric) {
                    // keep the solution if it wins
                    if error < best.error {
                        best.start = a;
                        best.end = b;
                        best.error = error;
                        best_i = i;
                        best_j = j;
                        best_iteration = iteration;
                        found = true;
                    }
                }
                // advance
                if j == count {
                    break;
                }
                part1 = add4(part1, ordering.points_weights[j]);
                j += 1;
            }
            // advance
            part0 = add4(part0, ordering.points_weights[i]);
        }
        // stop if we didn't improve in this iteration
        if best_iteration != iteration {
            break;
        }
        // advance if possible
        iteration += 1;
        if iteration == iteration_count {
            break;
        }
        // stop if a new iteration is an ordering that has already been tried
        let axis = [
            best.end.point[0] - best.start.point[0],
            best.end.point[1] - best.start.point[1],
            best.end.point[2] - best.start.point[2],
        ];
        if !ordering.construct(points, axis, iteration) {
            break;
        }
    }
    if !found {
        return Candidate::none();
    }
    // remap the indices
    let order = &ordering.order[best_iteration];
    for m in 0..best_i {
        best.indices[order[m] as usize] = 0;
    }
    for m in best_i..best_j {
        best.indices[order[m] as usize] = 2;
    }
    for m in best_j..count {
        best.indices[order[m] as usize] = 1;
    }
    best
}

/// The best split of the ordered colours into the palette entries 0, 2, 3
/// and 1 of the palette of four colours.
fn cluster_fit_four(
    points: &Points,
    principle: Vec3,
    metric: Vec3,
    iteration_count: usize,
    best_so_far: f32,
) -> Candidate {
    let count = points.count;
    let mut ordering =
        AxisOrder { order: [[0; 16]; MAX_ITERATIONS], points_weights: [[0.0; 4]; 16], xsum_wsum: [0.0; 4] };
    // prepare an ordering using the principle axis
    ordering.construct(points, principle, 0);
    // check all possible clusters and iterate on the total order
    let mut best = Candidate::none();
    best.error = best_so_far;
    let mut found = false;
    let mut best_iteration = 0;
    let mut best_i = 0;
    let mut best_j = 0;
    let mut best_k = 0;
    // loop over iterations (we avoid the case that all points in first or last cluster)
    let mut iteration = 0;
    loop {
        // first cluster [0,i) is at the start
        let mut part0 = [0.0f32; 4];
        for i in 0..count {
            // second cluster [i,j) is one third along
            let mut part1 = [0.0f32; 4];
            let mut j = i;
            loop {
                // third cluster [j,k) is two thirds along
                let mut part2 = if j == 0 { ordering.points_weights[0] } else { [0.0; 4] };
                let mut k = if j == 0 { 1 } else { j };
                loop {
                    // last cluster [k,count) is at the end
                    let part3 = sub4(sub4(sub4(ordering.xsum_wsum, part2), part1), part0);
                    // compute least squares terms directly
                    let alphax_sum = add4(
                        scale4(part2, 1.0 / 3.0, 1.0 / 9.0),
                        add4(scale4(part1, 2.0 / 3.0, 4.0 / 9.0), part0),
                    );
                    let betax_sum = add4(
                        scale4(part1, 1.0 / 3.0, 1.0 / 9.0),
                        add4(scale4(part2, 2.0 / 3.0, 4.0 / 9.0), part3),
                    );
                    let alphabeta_sum = (2.0 / 9.0) * (part1[3] + part2[3]);
                    if let Some((a, b, error)) = solve(alphax_sum, betax_sum, alphabeta_sum, metric)
                    {
                        // keep the solution if it wins
                        if error < best.error {
                            best.start = a;
                            best.end = b;
                            best.error = error;
                            best_i = i;
                            best_j = j;
                            best_k = k;
                            best_iteration = iteration;
                            found = true;
                        }
                    }
                    // advance
                    if k == count {
                        break;
                    }
                    part2 = add4(part2, ordering.points_weights[k]);
                    k += 1;
                }
                // advance
                if j == count {
                    break;
                }
                part1 = add4(part1, ordering.points_weights[j]);
                j += 1;
            }
            // advance
            part0 = add4(part0, ordering.points_weights[i]);
        }
        // stop if we didn't improve in this iteration
        if best_iteration != iteration {
            break;
        }
        // advance if possible
        iteration += 1;
        if iteration == iteration_count {
            break;
        }
        // stop if a new iteration is an ordering that has already been tried
        let axis = [
            best.end.point[0] - best.start.point[0],
            best.end.point[1] - best.start.point[1],
            best.end.point[2] - best.start.point[2],
        ];
        if !ordering.construct(points, axis, iteration) {
            break;
        }
    }
    if !found {
        return Candidate::none();
    }
    // remap the indices
    let order = &ordering.order[best_iteration];
    for m in 0..best_i {
        best.indices[order[m] as usize] = 0;
    }
    for m in best_i..best_j {
        best.indices[order[m] as usize] = 2;
    }
    for m in best_j..best_k {
        best.indices[order[m] as usize] = 3;
    }
    for m in best_k..count {
        best.indices[order[m] as usize] = 1;
    }
    best
}

fn cluster_fit(
    points: &Points,
    metric: Vec3,
    iterate: bool,
    try_three: bool,
    try_four: bool,
) -> Candidate {
    let iteration_count = if iterate { MAX_ITERATIONS } else { 1 };
    let principle = principal_component(&weighted_covariance(points));
    let mut best = Candidate::none();
    if try_three {
        let candidate = cluster_fit_three(points, principle, metric, iteration_count, best.error);
        if candidate.error < best.error {
            best = candidate;
        }
    }
    if try_four {
        let candidate = cluster_fit_four(points, principle, metric, iteration_count, best.error);
        if candidate.error < best.error {
            best = candidate;
        }
    }
    best
}

/// Chooses the endpoints and palette indices of a colour block for a set of
/// colours, with the algorithm and the channel weights of `params`.
///
/// The palette of three colours is tried for BC1; the palette of four
/// colours is tried unless the set is transparent, and wins where its error
/// is smaller.
pub fn fit_colours(set: &ColourSet, params: Params, is_bc1: bool) -> ColourFit {
    let points = points_of(set);
    let unit = COLOUR_WEIGHT_ONE as f32;
    let weights = [
        params.weights[0] as f32 / unit,
        params.weights[1] as f32 / unit,
        params.weights[2] as f32 / unit,
    ];
    let try_three = is_bc1;
    let try_four = !is_bc1 || !set.is_transparent();
    let mut best = match params.algorithm {
        Algorithm::RangeFit => range_fit(&points, weights, try_three, try_four),
        Algorithm::ClusterFit | Algorithm::IterativeClusterFit => {
            let metric =
                [weights[0] * weights[0], weights[1] * weights[1], weights[2] * weights[2]];
            let iterate = params.algorithm == Algorithm::IterativeClusterFit;
            cluster_fit(&points, metric, iterate, try_three, try_four)
        }
    };
    if best.error == f32::MAX {
        // no split had a solution: fall back to the range of the colours
        best = range_fit(&points, weights, try_three, try_four);
        if best.error == f32::MAX {
            best.three_colour = try_three;
            best.indices = [0; 16];
        }
    }
    ColourFit::new(best.start.packed, best.end.packed, best.indices, best.three_colour)
        .expect("palette indices are below 4")
}

// ---------------------------------------------------------------------------
// Tests
// ---------------------------------------------------------------------------

// The test-pattern is a gray-scale chessboard of size 4x4 with 0xFF in the top-left.
// On top of that, the four middle pixels are set to 0x7F.
const DECODED_BLOCK_GRAY_4X4: [u8; 16] = [
    0xFF, 0x00, 0xFF, 0x00, // row 0
    0x00, 0x7F, 0x7F, 0xFF, // row 1
    0xFF, 0x7F, 0x7F, 0x00, // row 2
    0x00, 0xFF, 0x00, 0xFF, // row 3
];

fn decoded_block_gray_4x4_as_rgba() -> [u8; 4 * 4 * 4] {
    let mut output = [0u8; 4 * 4 * 4];
    for i in 0..DECODED_BLOCK_GRAY_4X4.len() {
        output[i * 4 + 0] = DECODED_BLOCK_GRAY_4X4[i]; // R
        output[i * 4 + 1] = DECODED_BLOCK_GRAY_4X4[i]; // G
        output[i * 4 + 2] = DECODED_BLOCK_GRAY_4X4[i]; // B
        output[i * 4 + 3] = 0xFF; //A
    }
    output
}

// A colour test-pattern (RGB) with the first row in one colour,
// the second in another and the third and last row in a third colour.
const DECODED_BLOCK_COLOUR_4X4: [u8; 48] = [
    255, 150, 74, 255, 150, 74, 255, 150, 74, 255, 150, 74, // row 0
    255, 120, 52, 255, 120, 52, 255, 120, 52, 255, 120, 52, // row 1
    255, 105, 41, 255, 105, 41, 255, 105, 41, 255, 105, 41, // row 2
    255, 105, 41, 255, 105, 41, 255, 105, 41, 255, 105, 41, // row 3
];

const ENCODED_BLOCK_COLOUR_4X4: [u8; 8] = [0xA9, 0xFC, 0x45, 0xFB, 0x00, 0xFF, 0x55, 0x55];

fn decoded_block_colour_4x4_as_rgba() -> [u8; 4 * 4 * 4] {
    let mut output = [0u8; 4 * 4 * 4];
    for i in 0..4 * 4 {
        output[i * 4 + 0] = DECODED_BLOCK_COLOUR_4X4[i * 3 + 0]; // R
        output[i * 4 + 1] = DECODED_BLOCK_COLOUR_4X4[i * 3 + 1]; // G
        output[i * 4 + 2] = DECODED_BLOCK_COLOUR_4X4[i * 3 + 2]; // B
        output[i * 4 + 3] = 0xFF; //A
    }
    output
}

// Same RGB colours as DECODED_BLOCK_COLOUR_4X4, with additional alpha channel.
// Alpha starts at 0x00, then increases by 0x11 for every pixel.
const DECODED_BLOCK_RGBA_4X4: [u8; 64] = [
    0xFF, 0x96, 0x4A, 0x00, 0xFF, 0x96, 0x4A, 0x11, // row 0, left half
    0xFF, 0x96, 0x4A, 0x22, 0xFF, 0x96, 0x4A, 0x33, // row 0, right half
    0xFF, 0x78, 0x34, 0x44, 0xFF, 0x78, 0x34, 0x55, // row 1, left half
    0xFF, 0x78, 0x34, 0x66, 0xFF, 0x78, 0x34, 0x77, // row 1, right half
    0xFF, 0x69, 0x29, 0x88, 0xFF, 0x69, 0x29, 0x99, // row 2, left half
    0xFF, 0x69, 0x29, 0xAA, 0xFF, 0x69, 0x29, 0xBB, // row 2, right half
    0xFF, 0x69, 0x29, 0xCC, 0xFF, 0x69, 0x29, 0xDD, // row 3, left half
    0xFF, 0x69, 0x29, 0xEE, 0xFF, 0x69, 0x29, 0xFF, // row 3, right half
];

// Combine the same alpha channel (BC2-compressed) with RGB from ENCODED_BLOCK_COLOUR_4X4.
const ENCODED_BC2_BLOCK_ALPHA_4X4: [u8; 16] = [
    0x10, 0x32, 0x54, 0x76, 0x98, 0xBA, 0xDC, 0xFE, // Alpha
    0xA9, 0xFC, 0x45, 0xFB, 0x00, 0xFF, 0x55, 0x55, // RGB block
];

fn bc1_gray(algorithm: Algorithm) {
    let mut output_actual = [0u8; 8];
    BC1::compress(
        &decoded_block_gray_4x4_as_rgba(),
        4,
        4,
        Params { algorithm, weights: COLOUR_WEIGHTS_UNIFORM, weigh_colour_by_alpha: false },
        &fit_colours,
        &mut output_actual,
    );
    let output_expected = [0x00, 0x00, 0xFF, 0xFF, 0x11, 0x68, 0x29, 0x44];
    assert_eq!(output_actual, output_expected);
}

#[test]
fn test_bc1_compression_gray() {
    // all algorithms should result in the same expected output
    bc1_gray(Algorithm::ClusterFit);
    bc1_gray(Algorithm::RangeFit);
    bc1_gray(Algorithm::IterativeClusterFit);
}

fn bc1_colour(algorithm: Algorithm) {
    let mut output_actual = [0u8; 8];
    BC1::compress(
        &decoded_block_colour_4x4_as_rgba(),
        4,
        4,
        Params { algorithm, weights: COLOUR_WEIGHTS_UNIFORM, weigh_colour_by_alpha: false },
        &fit_colours,
        &mut output_actual,
    );
    let output_expected = ENCODED_BLOCK_COLOUR_4X4;
    assert_eq!(output_actual, output_expected);
}

#[test]
fn test_bc1_compression_colour() {
    // all algorithms should result in the same expected output
    bc1_colour(Algorithm::ClusterFit);
    bc1_colour(Algorithm::RangeFit);
    bc1_colour(Algorithm::IterativeClusterFit);
}

fn bc2_colour(algorithm: Algorithm) {
    let mut output_actual = [0u8; 16];
    BC2::compress(
        &DECODED_BLOCK_RGBA_4X4,
        4,
        4,
        Params { algorithm, weights: COLOUR_WEIGHTS_UNIFORM, weigh_colour_by_alpha: false },
        &fit_colours,
        &mut output_actual,
    );
    let output_expected = ENCODED_BC2_BLOCK_ALPHA_4X4;
    assert_eq!(output_actual, output_expected);
}

#[test]
fn test_bc2_compression_colour() {
    // all algorithms should result in the same expected output
    bc2_colour(Algorithm::ClusterFit);
    bc2_colour(Algorithm::RangeFit);
    bc2_colour(Algorithm::IterativeClusterFit);
}

#[test]
fn bc3_compression_keeps_the_colour_block() {
    let mut output = [0u8; 16];
    BC3::compress(
        &decoded_block_colour_4x4_as_rgba(),
        4,
        4,
        Params { algorithm: Algorithm::ClusterFit, weights: COLOUR_WEIGHTS_PERCEPTUAL, weigh_colour_by_alpha: false },
        &fit_colours,
        &mut output,
    );
    // opaque alpha: endpoints 0 and 5 with every pixel on the entry 255
    assert_eq!(&output[..8], &[0x00, 0x05, 0xFF, 0xFF, 0xFF, 0xFF, 0xFF, 0xFF]);
    assert_eq!(output[8..12], ENCODED_BLOCK_COLOUR_4X4[..4]);
}

fn two_colours(first: [u8; 3], second: [u8; 3], pattern: u32) -> [u8; 64] {
    let mut rgba = [255u8; 64];
    for i in 0..16 {
        let colour = if (pattern >> i) & 1 == 1 { second } else { first };
        rgba[4 * i..4 * i + 3].copy_from_slice(&colour);
    }
    rgba
}

#[test]
fn two_colours_do_not_depend_on_the_algorithm() {
    let tiles = [
        two_colours([255, 0, 0], [0, 255, 255], 0x0F0F),
        two_colours([0, 0, 0], [255, 255, 255], 0xAAAA),
        two_colours([10, 20, 30], [200, 180, 160], 0x8001),
        two_colours([255, 150, 74], [0, 105, 41], 0xFF00),
    ];
    for rgba in tiles {
        for weights in [COLOUR_WEIGHTS_UNIFORM, COLOUR_WEIGHTS_PERCEPTUAL] {
            let mut outputs = [[0u8; 16]; 3];
            let algorithms =
                [Algorithm::RangeFit, Algorithm::ClusterFit, Algorithm::IterativeClusterFit];
            for (output, algorithm) in outputs.iter_mut().zip(algorithms) {
                let params = Params { algorithm, weights, weigh_colour_by_alpha: false };
                BC1::compress(&rgba, 4, 4, params, &fit_colours, &mut output[..8]);
                BC3::compress(&rgba, 4, 4, params, &fit_colours, &mut output[..]);
            }
            assert_eq!(outputs[0], outputs[1]);
            assert_eq!(outputs[0], outputs[2]);
        }
    }
}

#[test]
fn two_colours_on_the_grid_come_back() {
    let rgba = two_colours([255, 0, 0], [0, 0, 255], 0x0F0F);
    let mut data = [0u8; 8];
    BC1::compress(&rgba, 4, 4, Params::default(), &fit_colours, &mut data);
    let mut output = [0u8; 64];
    <BC1 as squish::Decoder>::decompress(&data, 4, 4, &mut output);
    assert_eq!(output, rgba);
}

#[test]
fn weighting_by_alpha_is_handed_to_the_fitter() {
    let mut rgba = two_colours([255, 0, 0], [0, 0, 255], 0x0F0F);
    for i in 0..16 {
        rgba[4 * i + 3] = if i < 8 { 255 } else { 128 };
    }
    let seen = std::cell::Cell::new(0u32);
    let fitter = |set: &ColourSet, params: Params, is_bc1: bool| {
        seen.set(set.weight(0) + set.weight(1));
        fit_colours(set, params, is_bc1)
    };
    let params = Params {
        algorithm: Algorithm::ClusterFit,
        weights: COLOUR_WEIGHTS_UNIFORM,
        weigh_colour_by_alpha: true,
    };
    let mut data = [0u8; 16];
    BC2::compress(&rgba, 4, 4, params, &fitter, &mut data);
    assert_eq!(seen.get(), 8 * 65280 + 8 * 128 * 256);
}
