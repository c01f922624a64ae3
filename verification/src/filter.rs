//! Filter kernels for the convolution workload: the square grid a Gaussian
//! kernel is evaluated over, and the uniform kernel in exact arithmetic.
//!
//! A kernel of radius `r` has side `2 r + 1` and one entry for each offset
//! `(x, y)` with `-r <= x, y <= r`, stored row by row. The weight of a
//! Gaussian kernel at an offset depends on the offset only through
//! `x^2 + y^2`; `squared_distances` computes that grid, and the caller
//! evaluates the density over it.

use vstd::prelude::*;
use vstd::arithmetic::div_mod::lemma_fundamental_div_mod_converse;

verus! {

/// The largest radius a kernel may have. Up to it every squared distance in
/// the kernel fits in a signed 32-bit integer, and the number of entries in
/// 32 bits.
pub const MAX_RADIUS: i32 = 32767;

/// The largest side a uniform kernel may have: up to it the number of
/// entries fits in 32 bits.
pub const MAX_UNIFORM_SIDE: u32 = 65535;

/// The side length of a kernel of the given radius.
pub open spec fn side_of(radius: int) -> int {
    2 * radius + 1
}

/// Where the entry for offset `(x, y)` stands in a kernel of the given
/// radius: rows run over `y`, and within a row entries run over `x`.
pub open spec fn offset_index(radius: int, x: int, y: int) -> int {
    (y + radius) * side_of(radius) + (x + radius)
}

/// The squared distance of offset `(x, y)` from the centre.
pub open spec fn squared_distance(x: int, y: int) -> int {
    x * x + y * y
}

/// The squared distance that stands at `index` in a kernel of the given
/// radius.
spec fn entry_at(radius: int, index: int) -> int {
    squared_distance(index % side_of(radius) - radius, index / side_of(radius) - radius)
}

/// The side length `2 * radius + 1` of a kernel of the given radius, which is
/// always odd.
pub fn kernel_side(radius: i32) -> (side: usize)
    requires
        radius >= 0,
    ensures
        side == side_of(radius as int),
        side % 2 == 1,
{
    let side: u32 = 2 * (radius as u32) + 1;
    side as usize
}

/// The grid that a Gaussian kernel of the given radius is evaluated over:
/// for each offset `(x, y)` with `-radius <= x, y <= radius` its squared
/// distance `x^2 + y^2` from the centre, row by row. The grid has
/// `(2 * radius + 1)^2` entries.
pub fn squared_distances(radius: i32) -> (grid: Vec<u32>)
    requires
        0 <= radius <= MAX_RADIUS,
    ensures
        grid@.len() == side_of(radius as int) * side_of(radius as int),
        forall|x: int, y: int|
            -radius <= x <= radius && -radius <= y <= radius ==> grid@[#[trigger] offset_index(
                radius as int,
                x,
                y,
            )] == squared_distance(x, y),
{
    let side = kernel_side(radius);
    let r: i64 = radius as i64;
    let mut grid: Vec<u32> = Vec::new();
    let mut row: usize = 0;
    while row < side
        invariant
            0 <= radius <= MAX_RADIUS,
            r == radius,
            side == side_of(radius as int),
            row <= side,
            grid@.len() == row * side,
            forall|i: int| 0 <= i < grid@.len() ==> grid@[i] == entry_at(radius as int, i),
        decreases side - row,
    {
        let mut col: usize = 0;
        while col < side
            invariant
                0 <= radius <= MAX_RADIUS,
                r == radius,
                side == side_of(radius as int),
                row < side,
                col <= side,
                grid@.len() == row * side + col,
                forall|i: int| 0 <= i < grid@.len() ==> grid@[i] == entry_at(radius as int, i),
            decreases side - col,
        {
            let x: i64 = col as i64 - r;
            let y: i64 = row as i64 - r;
            proof {
                lemma_fundamental_div_mod_converse(
                    row * side + col,
                    side as int,
                    row as int,
                    col as int,
                );
                lemma_square_bound(x as int, radius as int);
                lemma_square_bound(y as int, radius as int);
            }
            let d: i64 = x * x + y * y;
            grid.push(d as u32);
            col += 1;
        }
        proof {
            assert((row + 1) * side == row * side + side) by (nonlinear_arith);
        }
        row += 1;
    }
    proof {
        assert forall|x: int, y: int|
            -radius <= x <= radius && -radius <= y <= radius implies grid@[#[trigger] offset_index(
            radius as int,
            x,
            y,
        )] == squared_distance(x, y) by {
            lemma_offset_index(radius as int, x, y);
        }
    }
    grid
}

/// The square of an offset within the largest radius stays below 2^30.
proof fn lemma_square_bound(x: int, radius: int)
    requires
        0 <= radius <= MAX_RADIUS,
        -radius <= x <= radius,
    ensures
        0 <= x * x <= 32767 * 32767,
{
    assert(0 <= x * x <= 32767 * 32767) by (nonlinear_arith)
        requires
            -32767 <= x <= 32767,
    ;
}

/// The index of an offset lies within the kernel, and row and column are
/// read back from it by division.
proof fn lemma_offset_index(radius: int, x: int, y: int)
    requires
        radius >= 0,
        -radius <= x <= radius,
        -radius <= y <= radius,
    ensures
        0 <= offset_index(radius, x, y) < side_of(radius) * side_of(radius),
        entry_at(radius, offset_index(radius, x, y)) == squared_distance(x, y),
{
    let side = side_of(radius);
    let row = y + radius;
    let col = x + radius;
    lemma_fundamental_div_mod_converse(row * side + col, side, row, col);
    assert(0 <= row * side + col < side * side) by (nonlinear_arith)
        requires
            0 <= row < side,
            0 <= col < side,
    ;
}

/// The sum of a sequence of integer weights.
pub open spec fn total(weights: Seq<u64>) -> int
    decreases weights.len(),
{
    if weights.len() == 0 {
        0
    } else {
        total(weights.drop_last()) + weights.last()
    }
}

/// What a `FilterKernel` stands for: a square array of coefficients, the
/// coefficient at index `i` being the fraction `weights[i] / divisor`.
pub struct Coefficients {
    pub side: nat,
    pub weights: Seq<u64>,
    pub divisor: nat,
}

impl Coefficients {
    /// The array is square, and its coefficients add up to exactly one:
    /// the weights add up to the divisor, which is not zero.
    pub open spec fn normalized(self) -> bool {
        &&& self.weights.len() == self.side * self.side
        &&& self.divisor > 0
        &&& total(self.weights) == self.divisor
    }

    /// Every coefficient is the same fraction: one over the number of
    /// entries.
    pub open spec fn uniform(self) -> bool {
        &&& self.divisor == self.weights.len()
        &&& forall|i: int| 0 <= i < self.weights.len() ==> self.weights[i] == 1
    }
}

/// A filter kernel in exact arithmetic: integer weights over a common
/// divisor.
#[derive(Debug, PartialEq, Eq)]
pub struct FilterKernel {
    side: u32,
    weights: Vec<u64>,
    divisor: u64,
}

impl View for FilterKernel {
    type V = Coefficients;

    closed spec fn view(&self) -> Coefficients {
        Coefficients {
            side: self.side as nat,
            weights: self.weights@,
            divisor: self.divisor as nat,
        }
    }
}

impl FilterKernel {
    #[verifier::type_invariant]
    spec fn sums_to_one(self) -> bool {
        self@.normalized()
    }

    /// The side length of the kernel.
    pub fn side(&self) -> (r: u32)
        ensures
            r == self@.side,
    {
        self.side
    }

    /// The weights, row by row. They add up to the divisor.
    pub fn weights(&self) -> (r: &Vec<u64>)
        ensures
            r@ == self@.weights,
            self@.normalized(),
    {
        proof {
            use_type_invariant(self);
        }
        &self.weights
    }

    /// The number that every weight is divided by, which is not zero.
    pub fn divisor(&self) -> (r: u64)
        ensures
            r == self@.divisor,
            r > 0,
    {
        proof {
            use_type_invariant(self);
        }
        self.divisor
    }
}

/// The uniform kernel of the given side: `filter_size^2` coefficients, each
/// of them `1 / filter_size^2`, which add up to exactly one.
pub fn generate_uniform_kernel(filter_size: u32) -> (kernel: FilterKernel)
    requires
        0 < filter_size <= MAX_UNIFORM_SIDE,
    ensures
        kernel@.side == filter_size,
        kernel@.weights.len() == filter_size * filter_size,
        kernel@.uniform(),
        kernel@.normalized(),
{
    assert(0 < filter_size * filter_size <= 65535 * 65535) by (nonlinear_arith)
        requires
            0 < filter_size <= 65535,
    ;
    let len_filter: u32 = filter_size * filter_size;
    let mut weights: Vec<u64> = Vec::new();
    let mut i: u32 = 0;
    while i < len_filter
        invariant
            i <= len_filter,
            weights@.len() == i,
            forall|j: int| 0 <= j < weights@.len() ==> weights@[j] == 1,
        decreases len_filter - i,
    {
        weights.push(1);
        i += 1;
    }
    proof {
        lemma_total_of_ones(weights@);
    }
    FilterKernel { side: filter_size, weights, divisor: len_filter as u64 }
}

/// Coefficients that are uniform over a square array with at least one
/// entry add up to exactly one.
pub proof fn lemma_uniform_is_normalized(kernel: Coefficients)
    requires
        kernel.uniform(),
        kernel.weights.len() == kernel.side * kernel.side,
        kernel.side > 0,
    ensures
        kernel.normalized(),
{
    lemma_total_of_ones(kernel.weights);
    assert(kernel.side * kernel.side > 0) by (nonlinear_arith)
        requires
            kernel.side > 0,
    ;
}

/// Weights that are all one add up to their number.
proof fn lemma_total_of_ones(weights: Seq<u64>)
    requires
        forall|i: int| 0 <= i < weights.len() ==> weights[i] == 1,
    ensures
        total(weights) == weights.len(),
    decreases weights.len(),
{
    if weights.len() > 0 {
        lemma_total_of_ones(weights.drop_last());
    }
}

} // verus!
