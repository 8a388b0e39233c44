use vstd::prelude::*;

use rand::{Rng, SeedableRng};

verus! {

/// The smallest width or height of a grid: one interior cell with a border round it.
pub const MIN_SIDE: usize = 3;

/// Why a grid of the asked dimensions cannot be built.
#[derive(Debug, Clone, Copy, PartialEq, Eq, Structural)]
pub enum GridError {
    /// The width or the height is below three.
    TooSmall,
    /// The grid, rendered at four bytes a cell, would not be addressable.
    TooLarge,
}

/// Width and height that the engine can work on: room for an interior, and
/// every byte of the rendered image addressable.
pub open spec fn dims_ok(width: int, height: int) -> bool {
    &&& width >= MIN_SIDE
    &&& height >= MIN_SIDE
    &&& width * height * 4 <= usize::MAX
}

/// A row-major grid of `width * height` cells.
pub open spec fn grid_ok(cells: Seq<i8>, width: int, height: int) -> bool {
    &&& dims_ok(width, height)
    &&& cells.len() == width * height
}

/// Position `(x, y)` of a grid of the given width, in row-major order.
pub open spec fn cell_index(width: int, x: int, y: int) -> int {
    y * width + x
}

/// Every position of a `width` by `height` grid has an index inside the grid,
/// and the index gives the position back.
pub proof fn lemma_cell_index(width: int, height: int, x: int, y: int)
    requires
        0 <= x < width,
        0 <= y < height,
    ensures
        0 <= cell_index(width, x, y) < width * height,
        cell_index(width, x, y) % width == x,
        cell_index(width, x, y) / width == y,
{
    assert(0 <= y * width + x < width * height) by (nonlinear_arith)
        requires
            0 <= x < width,
            0 <= y < height,
    ;
    vstd::arithmetic::div_mod::lemma_fundamental_div_mod_converse(
        y * width + x,
        width,
        y,
        x,
    );
}

/// Density one: every cell starts alive. A density `d` between zero and one
/// is the threshold `ceil(d * 2^53)`.
pub const DENSITY_ONE: u64 = 9007199254740992;

/// The outputs of rand_pcg's `Pcg64` seeded with `seed`, the first `count` of them.
pub uninterp spec fn pcg64_draws(seed: u64, count: nat) -> Seq<u64>;

/// Relies on rand's `SeedableRng::seed_from_u64` for rand_pcg's `Pcg64`, and on
/// `Rng::sample_iter` with the `Standard` distribution, which yields `next_u64`
/// of the generator in turn: the outputs depend on the seed alone.
#[verifier::external_body]
fn seeded_draws(seed: u64, count: usize) -> (r: Vec<u64>)
    ensures
        r@ == pcg64_draws(seed, count as nat),
        r@.len() == count,
{
    rand_pcg::Pcg64::seed_from_u64(seed).sample_iter(rand::distributions::Standard).take(
        count,
    ).collect()
}

/// A cell starts alive where the unit draw made from `draw` is below the
/// density. rand makes a unit draw from the top 53 bits of a 64-bit output,
/// divided by `2^53`; against the threshold the division drops out.
pub open spec fn draw_alive(draw: u64, density: u64) -> bool {
    (draw as int) / 2048 < density as int
}

/// The cells that a sequence of draws starts alive at the given density: one
/// for alive, zero for dead.
pub open spec fn seeded_cells(draws: Seq<u64>, density: u64) -> Seq<i8> {
    Seq::new(draws.len(), |i: int| if draw_alive(draws[i], density) { 1i8 } else { 0i8 })
}

/// The starting cells of a grid of `count` cells for a seed and a density.
pub open spec fn initial_cells(seed: u64, count: nat, density: u64) -> Seq<i8> {
    seeded_cells(pcg64_draws(seed, count), density)
}

/// Turns draws into starting cells, one cell for each draw in order.
pub fn cells_from_draws(draws: &Vec<u64>, density: u64) -> (r: Vec<i8>)
    ensures
        r@ == seeded_cells(draws@, density),
{
    let mut v: Vec<i8> = Vec::new();
    let mut i: usize = 0;
    while i < draws.len()
        invariant
            i <= draws@.len(),
            v@ == seeded_cells(draws@, density).take(i as int),
        decreases draws@.len() - i,
    {
        let alive = draws[i] / 2048 < density;
        v.push(if alive { 1 } else { 0 });
        proof {
            assert(v@ =~= seeded_cells(draws@, density).take(i + 1));
        }
        i += 1;
    }
    assert(v@ =~= seeded_cells(draws@, density));
    v
}

/// Checks that a `width` by `height` grid can be built.
pub fn check_dims(width: usize, height: usize) -> (r: Result<(), GridError>)
    ensures
        r == Ok::<(), GridError>(()) <==> dims_ok(width as int, height as int),
        r == Err::<(), GridError>(GridError::TooSmall) <==> (width < MIN_SIDE || height < MIN_SIDE),
        r == Err::<(), GridError>(GridError::TooLarge) <==> (width >= MIN_SIDE && height
            >= MIN_SIDE && width * height * 4 > usize::MAX),
{
    if width < MIN_SIDE || height < MIN_SIDE {
        return Err(GridError::TooSmall);
    }
    match width.checked_mul(height) {
        None => {
            assert(width * height * 4 > usize::MAX) by (nonlinear_arith)
                requires
                    width * height > usize::MAX,
            ;
            Err(GridError::TooLarge)
        },
        Some(n) => match n.checked_mul(4) {
            None => Err(GridError::TooLarge),
            Some(_) => Ok(()),
        },
    }
}

/// Builds the starting grid for a seed and a density: one draw for each cell
/// in row-major order, the cell alive where the draw is below the density.
pub fn initialize(width: usize, height: usize, seed: u64, density: u64) -> (r: Result<Vec<i8>, GridError>)
    ensures
        match r {
            Ok(cells) => dims_ok(width as int, height as int) && cells@.len() == width * height
                && cells@ == initial_cells(
                seed,
                (width * height) as nat,
                density,
            ),
            Err(e) => !dims_ok(width as int, height as int) && (e == GridError::TooSmall <==> (
            width < MIN_SIDE || height < MIN_SIDE)),
        },
{
    match check_dims(width, height) {
        Err(e) => Err(e),
        Ok(()) => {
            assert(width * height <= usize::MAX) by (nonlinear_arith)
                requires
                    width * height * 4 <= usize::MAX,
            ;
            let draws = seeded_draws(seed, width * height);
            Ok(cells_from_draws(&draws, density))
        },
    }
}

/// Two grids built by `initialize` from the same width, height, seed and
/// density hold the same cells.
pub proof fn lemma_initialize_deterministic(
    a: Seq<i8>,
    b: Seq<i8>,
    width: int,
    height: int,
    seed: u64,
    density: u64,
)
    requires
        dims_ok(width, height),
        a == initial_cells(seed, (width * height) as nat, density),
        b == initial_cells(seed, (width * height) as nat, density),
    ensures
        a == b,
{
}

} // verus!
