//! Noise scatter: choosing well-separated spawn points inside an elliptical
//! footprint of a sample grid.
use vstd::prelude::*;
use bevy_prng::WyRand;
use crate::random::draw_u64;

verus! {

/// Whether a noise field is built from a fixed seed or a drawn one.
#[derive(Clone, Copy, Debug, PartialEq, Eq, Structural)]
pub enum SeededOrNot {
    Seeded(u64),
    Unseeded,
}

/// The extent of a noise sample grid.
#[derive(Clone, Copy, Debug, PartialEq, Eq, Structural)]
pub enum SampleSize {
    UUniDim(i32),
    UBiDim(i32),
    UTriDim(i32),
    UniDim(i32),
    BiDim(i32, i32),
    TriDim(i32, i32, i32),
}

/// Largest number of grid cells a noise scatter may sample.
pub const MAX_SCATTER_CELLS: i64 = 2097152;

/// The seed of a noise field: the given one, or one drawn from `rng`.
pub fn noise_seed(seed: &SeededOrNot, rng: &mut WyRand) -> (r: u64)
    ensures
        seed is Seeded ==> r == seed->Seeded_0 && *final(rng) == *old(rng),
{
    match seed {
        SeededOrNot::Seeded(s) => *s,
        SeededOrNot::Unseeded => draw_u64(rng),
    }
}

/// The inclusive cell range sampled for a scatter footprint.
#[derive(Clone, Copy, Debug, PartialEq, Eq, Structural)]
pub struct ScatterGrid {
    pub start_x: i32,
    pub end_x: i32,
    pub start_y: i32,
    pub end_y: i32,
}

/// Whether a sample size and integer resolution make an acceptable grid:
/// positive, with even effective dimensions, within the cell budget.
pub open spec fn grid_allowed(width: int, height: int, resolution: int) -> bool {
    &&& 0 < width
    &&& 0 < height
    &&& 0 < resolution
    &&& (width * resolution) % 2 == 0
    &&& (height * resolution) % 2 == 0
    &&& (width * resolution) * (height * resolution) <= MAX_SCATTER_CELLS
}

/// The grid of a footprint: from half the size to one and a half times the
/// size, in cells of the resolution.
pub open spec fn grid_of(width: int, height: int, resolution: int) -> ScatterGrid {
    ScatterGrid {
        start_x: (width / 2 * resolution) as i32,
        end_x: (3 * width / 2 * resolution) as i32,
        start_y: (height / 2 * resolution) as i32,
        end_y: (3 * height / 2 * resolution) as i32,
    }
}

/// Builds the grid of a footprint (see [`grid_of`]).
pub fn scatter_grid(width: i32, height: i32, resolution: i32) -> (r: ScatterGrid)
    requires
        grid_allowed(width as int, height as int, resolution as int),
    ensures
        r == grid_of(width as int, height as int, resolution as int),
        r.start_x <= r.end_x,
        r.start_y <= r.end_y,
        r.end_x <= 3 * MAX_SCATTER_CELLS,
        r.end_y <= 3 * MAX_SCATTER_CELLS,
        0 <= r.start_x,
        0 <= r.start_y,
{
    proof {
        let w = width as int;
        let h = height as int;
        let res = resolution as int;
        assert(w * res <= MAX_SCATTER_CELLS) by (nonlinear_arith)
            requires 0 < w, 0 < h, 0 < res, (w * res) * (h * res) <= MAX_SCATTER_CELLS;
        assert(h * res <= MAX_SCATTER_CELLS) by (nonlinear_arith)
            requires 0 < w, 0 < h, 0 < res, (w * res) * (h * res) <= MAX_SCATTER_CELLS;
        assert(w <= w * res && h <= h * res) by (nonlinear_arith)
            requires 0 < w, 0 < h, 0 < res;
        assert(0 <= w / 2 * res <= 3 * w / 2 * res <= 3 * MAX_SCATTER_CELLS) by (nonlinear_arith)
            requires 0 < w, 0 < res, w * res <= MAX_SCATTER_CELLS;
        assert(0 <= h / 2 * res <= 3 * h / 2 * res <= 3 * MAX_SCATTER_CELLS) by (nonlinear_arith)
            requires 0 < h, 0 < res, h * res <= MAX_SCATTER_CELLS;
    }
    ScatterGrid {
        start_x: width / 2 * resolution,
        end_x: 3 * width / 2 * resolution,
        start_y: height / 2 * resolution,
        end_y: 3 * height / 2 * resolution,
    }
}

/// Whether cell `(x, y)` lies in the ellipse inscribed in the grid:
/// `((2x - sx - ex) / (ex - sx))^2 + ((2y - sy - ey) / (ey - sy))^2 <= 1`,
/// multiplied out; a grid of zero width or height is a single line.
pub open spec fn in_footprint(g: ScatterGrid, x: int, y: int) -> bool {
    let wx = g.end_x - g.start_x;
    let wy = g.end_y - g.start_y;
    let dx = 2 * x - g.start_x - g.end_x;
    let dy = 2 * y - g.start_y - g.end_y;
    &&& g.start_x <= x <= g.end_x
    &&& g.start_y <= y <= g.end_y
    &&& dx * dx * (wy * wy) + dy * dy * (wx * wx) <= (wx * wx) * (wy * wy)
}

pub open spec fn grid_bounded(g: ScatterGrid) -> bool {
    &&& 0 <= g.start_x <= g.end_x <= 3 * MAX_SCATTER_CELLS
    &&& 0 <= g.start_y <= g.end_y <= 3 * MAX_SCATTER_CELLS
}

pub open spec fn cell_before(a: (i32, i32), b: (i32, i32)) -> bool {
    a.0 < b.0 || (a.0 == b.0 && a.1 < b.1)
}

fn footprint_contains(g: &ScatterGrid, x: i32, y: i32) -> (r: bool)
    requires
        grid_bounded(*g),
        g.start_x <= x <= g.end_x,
        g.start_y <= y <= g.end_y,
    ensures
        r == in_footprint(*g, x as int, y as int),
{
    let wx = (g.end_x - g.start_x) as i128;
    let wy = (g.end_y - g.start_y) as i128;
    let dx = 2 * (x as i128) - g.start_x as i128 - g.end_x as i128;
    let dy = 2 * (y as i128) - g.start_y as i128 - g.end_y as i128;
    let b: i128 = 0x100_0000;
    assert(-b <= dx <= b && -b <= dy <= b && 0 <= wx <= b && 0 <= wy <= b);
    assert(dx * dx <= b * b && dy * dy <= b * b && wx * wx <= b * b && wy * wy <= b * b && dx * dx >= 0 && dy * dy >= 0 && wx * wx >= 0 && wy * wy >= 0) by (nonlinear_arith)
        requires -b <= dx <= b, -b <= dy <= b, 0 <= wx <= b, 0 <= wy <= b;
    let dx2 = dx * dx;
    let dy2 = dy * dy;
    let wx2 = wx * wx;
    let wy2 = wy * wy;
    let bb = b * b;
    assert(dx2 * wy2 <= bb * bb && dy2 * wx2 <= bb * bb && wx2 * wy2 <= bb * bb) by (nonlinear_arith)
        requires 0 <= dx2 <= bb, 0 <= dy2 <= bb, 0 <= wx2 <= bb, 0 <= wy2 <= bb;
    dx2 * wy2 + dy2 * wx2 <= wx2 * wy2
}

/// The cells of the footprint, in increasing order of `x`, then `y`.
pub fn ellipse_cells(g: &ScatterGrid) -> (r: Vec<(i32, i32)>)
    requires
        grid_bounded(*g),
    ensures
        forall|i: int| 0 <= i < r@.len() ==> in_footprint(*g, r@[i].0 as int, r@[i].1 as int),
        forall|i: int, j: int| 0 <= i < j < r@.len() ==> cell_before(r@[i], r@[j]),
        forall|x: i32, y: i32| in_footprint(*g, x as int, y as int) ==> r@.contains((x, y)),
{
    let mut out: Vec<(i32, i32)> = Vec::new();
    let mut x = g.start_x;
    while x <= g.end_x
        invariant
            grid_bounded(*g),
            g.start_x <= x <= g.end_x + 1,
            forall|i: int| 0 <= i < out@.len() ==> in_footprint(*g, out@[i].0 as int, out@[i].1 as int),
            forall|i: int| 0 <= i < out@.len() ==> out@[i].0 < x,
            forall|i: int, j: int| 0 <= i < j < out@.len() ==> cell_before(out@[i], out@[j]),
            forall|cx: i32, cy: i32| cx < x && in_footprint(*g, cx as int, cy as int) ==> out@.contains((cx, cy)),
        decreases g.end_x + 1 - x,
    {
        let mut y = g.start_y;
        let ghost row_start = out@.len();
        while y <= g.end_y
            invariant
                grid_bounded(*g),
                g.start_x <= x <= g.end_x,
                g.start_y <= y <= g.end_y + 1,
                row_start <= out@.len(),
                forall|i: int| 0 <= i < out@.len() ==> in_footprint(*g, out@[i].0 as int, out@[i].1 as int),
                forall|i: int| 0 <= i < row_start ==> out@[i].0 < x,
                forall|i: int| row_start <= i < out@.len() ==> out@[i].0 == x && out@[i].1 < y,
                forall|i: int, j: int| 0 <= i < j < out@.len() ==> cell_before(out@[i], out@[j]),
                forall|cx: i32, cy: i32| cx < x && in_footprint(*g, cx as int, cy as int) ==> out@.contains((cx, cy)),
                forall|cy: i32| cy < y && in_footprint(*g, x as int, cy as int) ==> out@.contains((x, cy)),
            decreases g.end_y + 1 - y,
        {
            let ghost before = out@;
            if footprint_contains(g, x, y) {
                out.push((x, y));
                assert(out@[out@.len() - 1] == (x, y));
            }
            proof {
                assert forall|c: (i32, i32)| before.contains(c) implies out@.contains(c) by {
                    let k = choose|k: int| 0 <= k < before.len() && before[k] == c;
                    assert(out@[k] == c);
                }
            }
            y += 1;
        }
        x += 1;
    }
    out
}

pub open spec fn sq_dist(a: (i32, i32), b: (i32, i32)) -> int {
    (a.0 - b.0) * (a.0 - b.0) + (a.1 - b.1) * (a.1 - b.1)
}

/// Whether `c` is farther than the threshold from every accepted cell.
pub open spec fn far_from_all(c: (i32, i32), accepted: Seq<(i32, i32)>, min_sq_distance: int) -> bool {
    forall|i: int| 0 <= i < accepted.len() ==> sq_dist(c, #[trigger] accepted[i]) > min_sq_distance
}

/// Greedy selection over candidates in priority order: a candidate is
/// accepted when it is farther than the threshold from every candidate
/// accepted before it.
pub open spec fn greedy_spread(c: Seq<(i32, i32)>, min_sq_distance: int) -> Seq<(i32, i32)>
    decreases c.len(),
{
    if c.len() == 0 {
        Seq::empty()
    } else {
        let g = greedy_spread(c.drop_last(), min_sq_distance);
        if far_from_all(c.last(), g, min_sq_distance) {
            g.push(c.last())
        } else {
            g
        }
    }
}

pub open spec fn min_nat(a: nat, b: nat) -> nat {
    if a < b { a } else { b }
}

/// The first `n` cells of the greedy selection (all of them when fewer).
pub open spec fn exclusive_selection(c: Seq<(i32, i32)>, n: nat, min_sq_distance: int) -> Seq<(i32, i32)> {
    let g = greedy_spread(c, min_sq_distance);
    g.take(min_nat(n, g.len()) as int)
}

proof fn lemma_greedy_prefix(c: Seq<(i32, i32)>, i: int, t: int)
    requires
        0 <= i <= c.len(),
    ensures
        greedy_spread(c.take(i), t).len() <= greedy_spread(c, t).len(),
        greedy_spread(c, t).take(greedy_spread(c.take(i), t).len() as int) == greedy_spread(c.take(i), t),
    decreases c.len(),
{
    if i == c.len() {
        assert(c.take(i) =~= c);
        assert(greedy_spread(c, t).take(greedy_spread(c, t).len() as int) =~= greedy_spread(c, t));
    } else {
        lemma_greedy_prefix(c.drop_last(), i, t);
        assert(c.drop_last().take(i) =~= c.take(i));
        let g = greedy_spread(c.drop_last(), t);
        let p = greedy_spread(c.take(i), t);
        assert(g.push(c.last()).take(p.len() as int) =~= g.take(p.len() as int));
    }
}

proof fn lemma_greedy_step(c: Seq<(i32, i32)>, i: int, t: int)
    requires
        0 <= i < c.len(),
    ensures
        greedy_spread(c.take(i + 1), t) == if far_from_all(c[i], greedy_spread(c.take(i), t), t) {
            greedy_spread(c.take(i), t).push(c[i])
        } else {
            greedy_spread(c.take(i), t)
        },
{
    assert(c.take(i + 1).drop_last() =~= c.take(i));
}

fn far_enough(c: (i32, i32), accepted: &Vec<(i32, i32)>, min_sq_distance: u64) -> (r: bool)
    ensures
        r == far_from_all(c, accepted@, min_sq_distance as int),
{
    let mut i: usize = 0;
    while i < accepted.len()
        invariant
            i <= accepted@.len(),
            forall|k: int| 0 <= k < i ==> sq_dist(c, #[trigger] accepted@[k]) > min_sq_distance,
        decreases accepted@.len() - i,
    {
        let a = accepted[i];
        let dx = c.0 as i128 - a.0 as i128;
        let dy = c.1 as i128 - a.1 as i128;
        let b: i128 = 0x1_0000_0000;
        assert(dx * dx <= b * b && dy * dy <= b * b) by (nonlinear_arith)
            requires -b <= dx <= b, -b <= dy <= b;
        assert(dx * dx >= 0 && dy * dy >= 0) by (nonlinear_arith);
        if dx * dx + dy * dy <= min_sq_distance as i128 {
            return false;
        }
        i += 1;
    }
    true
}

/// Accepts candidates greedily in the given priority order, skipping any
/// within the distance threshold of one already accepted, until `n` are
/// accepted (see [`exclusive_selection`]).
pub fn filter_by_exclusivity(sorted_cells: &Vec<(i32, i32)>, n: u32, min_sq_distance: u64) -> (r: Vec<(i32, i32)>)
    ensures
        r@ == exclusive_selection(sorted_cells@, n as nat, min_sq_distance as int),
{
    let ghost c = sorted_cells@;
    let ghost t = min_sq_distance as int;
    let mut results: Vec<(i32, i32)> = Vec::new();
    let mut i: usize = 0;
    assert(c.take(0) =~= Seq::<(i32, i32)>::empty());
    while i < sorted_cells.len()
        invariant
            c == sorted_cells@,
            t == min_sq_distance as int,
            i <= c.len(),
            results@ == greedy_spread(c.take(i as int), t),
            results@.len() <= n,
        decreases c.len() - i,
    {
        if results.len() as u64 >= n as u64 {
            proof {
                lemma_greedy_prefix(c, i as int, t);
            }
            return results;
        }
        let cand = sorted_cells[i];
        proof {
            lemma_greedy_step(c, i as int, t);
        }
        if far_enough(cand, &results, min_sq_distance) {
            results.push(cand);
        }
        i += 1;
    }
    assert(c.take(c.len() as int) =~= c);
    assert(results@.take(results@.len() as int) =~= results@);
    results
}

proof fn lemma_greedy_separated(c: Seq<(i32, i32)>, t: int)
    ensures
        forall|i: int, j: int| 0 <= i < j < greedy_spread(c, t).len() ==> sq_dist(
            #[trigger] greedy_spread(c, t)[i],
            #[trigger] greedy_spread(c, t)[j],
        ) > t,
        forall|i: int| 0 <= i < greedy_spread(c, t).len() ==> c.contains(#[trigger] greedy_spread(c, t)[i]),
    decreases c.len(),
{
    if c.len() > 0 {
        lemma_greedy_separated(c.drop_last(), t);
        let g = greedy_spread(c.drop_last(), t);
        assert forall|i: int| 0 <= i < g.len() implies c.contains(#[trigger] g[i]) by {
            let k = choose|k: int| 0 <= k < c.drop_last().len() && c.drop_last()[k] == g[i];
            assert(c[k] == g[i]);
        }
        assert(c[c.len() - 1] == c.last());
        if far_from_all(c.last(), g, t) {
            let h = g.push(c.last());
            assert forall|i: int, j: int| 0 <= i < j < h.len() implies sq_dist(#[trigger] h[i], #[trigger] h[j]) > t by {
                if j == h.len() - 1 {
                    assert(sq_dist(c.last(), g[i]) > t);
                    assert(sq_dist(g[i], c.last()) == sq_dist(c.last(), g[i])) by (nonlinear_arith);
                }
            }
        }
    }
}

/// The scatter points: at most `n`, exactly `n` unless the greedy
/// selection runs out first; pairwise farther apart than the threshold; each
/// one a candidate, hence inside the footprint when the candidates are.
pub proof fn lemma_scatter_points(g: ScatterGrid, cells: Seq<(i32, i32)>, n: nat, min_sq_distance: int)
    requires
        forall|i: int| 0 <= i < cells.len() ==> in_footprint(g, #[trigger] cells[i].0 as int, cells[i].1 as int),
    ensures
        ({
            let r = exclusive_selection(cells, n, min_sq_distance);
            &&& r.len() == min_nat(n, greedy_spread(cells, min_sq_distance).len())
            &&& forall|i: int, j: int| 0 <= i < j < r.len() ==> sq_dist(#[trigger] r[i], #[trigger] r[j]) > min_sq_distance
            &&& forall|i: int| 0 <= i < r.len() ==> in_footprint(g, #[trigger] r[i].0 as int, r[i].1 as int)
        }),
{
    lemma_greedy_separated(cells, min_sq_distance);
    let gs = greedy_spread(cells, min_sq_distance);
    let r = exclusive_selection(cells, n, min_sq_distance);
    assert forall|i: int, j: int| 0 <= i < j < r.len() implies sq_dist(#[trigger] r[i], #[trigger] r[j]) > min_sq_distance by {
        assert(r[i] == gs[i] && r[j] == gs[j]);
    }
    assert forall|i: int| 0 <= i < r.len() implies in_footprint(g, #[trigger] r[i].0 as int, r[i].1 as int) by {
        assert(r[i] == gs[i]);
        assert(cells.contains(gs[i]));
        let k = choose|k: int| 0 <= k < cells.len() && cells[k] == gs[i];
        assert(in_footprint(g, cells[k].0 as int, cells[k].1 as int));
    }
}

/// Whether a sample size and integer resolution make an acceptable grid
/// (see [`grid_allowed`]).
pub fn is_grid_allowed(width: i32, height: i32, resolution: i32) -> (r: bool)
    ensures
        r == grid_allowed(width as int, height as int, resolution as int),
{
    if width <= 0 || height <= 0 || resolution <= 0 {
        return false;
    }
    let big: i128 = 0x8000_0000;
    assert((width as i128) * (resolution as i128) <= big * big && (height as i128) * (resolution as i128) <= big * big) by (nonlinear_arith)
        requires 0 < width <= 0x7fff_ffff, 0 < height <= 0x7fff_ffff, 0 < resolution <= 0x7fff_ffff, big == 0x8000_0000;
    let w = width as i128 * resolution as i128;
    let h = height as i128 * resolution as i128;
    let bound: i128 = 0x4000_0000_0000_0000;
    assert(0 < w <= bound && 0 < h <= bound) by (nonlinear_arith)
        requires w == width as i128 * resolution as i128, h == height as i128 * resolution as i128,
            0 < width <= 0x7fff_ffff, 0 < height <= 0x7fff_ffff, 0 < resolution <= 0x7fff_ffff, bound == 0x4000_0000_0000_0000;
    assert(0 < w * h <= bound * bound) by (nonlinear_arith)
        requires 0 < w <= bound, 0 < h <= bound;
    w % 2 == 0 && h % 2 == 0 && w * h <= MAX_SCATTER_CELLS as i128
}

} // verus!
