use vstd::prelude::*;

use rayon::iter::{IntoParallelIterator, ParallelIterator};

use crate::grid::{cell_index, grid_ok, lemma_cell_index};

verus! {

/// The transition rule that a run applies to every interior cell.
#[derive(Debug, Clone, Copy, PartialEq, Eq, Structural)]
pub enum GenMode {
    Majority,
    Annealing,
    Star1,
    TwoBonus,
    Experiment,
}

/// The shared test of the annealing family: exactly four, or more than five.
pub open spec fn anneal(total: int) -> bool {
    total == 4 || total > 5
}

/// Star rule with the given bonus: the cell is pushed up by `bonus` when it
/// turns on from below one, and down by `bonus` when it turns off from one or more.
pub open spec fn star_value(total: int, prev: int, bonus: int) -> int {
    let r = anneal(total);
    (if r { 1int } else { 0 }) + if r && prev < 1 {
        bonus
    } else if !r && prev >= 1 {
        -bonus
    } else {
        0
    }
}

/// Experiment rule: the annealing value, with an adjustment of three only
/// where the total is above five.
pub open spec fn experiment_value(total: int, prev: int) -> int {
    let r = anneal(total);
    (if r { 1int } else { 0 }) + if total > 5 {
        if r && prev < 0 {
            3int
        } else if !r && prev > 0 {
            -3
        } else {
            0
        }
    } else {
        0
    }
}

/// The new value of an interior cell, from the sum of its eight neighbours
/// and its own previous value.
pub open spec fn rule_value(mode: GenMode, total: int, prev: int) -> int {
    match mode {
        GenMode::Majority => if total > 4 { 1 } else { 0 },
        GenMode::Annealing => if anneal(total) { 1 } else { 0 },
        GenMode::Star1 => star_value(total, prev, 1),
        GenMode::TwoBonus => star_value(total, prev, 2),
        GenMode::Experiment => experiment_value(total, prev),
    }
}

/// Applies the rule of `mode` to one cell whose eight neighbours sum to
/// `total` and whose previous value is `prev`.
pub fn cell_rule(mode: GenMode, total: i32, prev: i8) -> (r: i8)
    ensures
        r as int == rule_value(mode, total as int, prev as int),
{
    let alive = total == 4 || total > 5;
    let base: i8 = if alive { 1 } else { 0 };
    match mode {
        GenMode::Majority => if total > 4 { 1 } else { 0 },
        GenMode::Annealing => base,
        GenMode::Star1 | GenMode::TwoBonus => {
            let bonus: i8 = if let GenMode::Star1 = mode { 1 } else { 2 };
            if alive && prev < 1 {
                base + bonus
            } else if !alive && prev >= 1 {
                base - bonus
            } else {
                base
            }
        },
        GenMode::Experiment => {
            if total > 5 && alive && prev < 0 {
                base + 3
            } else if total > 5 && !alive && prev > 0 {
                base - 3
            } else {
                base
            }
        },
    }
}

/// A cell of the outer ring: first or last row or column.
pub open spec fn is_border(width: int, height: int, x: int, y: int) -> bool {
    x == 0 || x == width - 1 || y == 0 || y == height - 1
}

/// The signed sum of the eight cells round the interior cell `(x, y)`.
pub open spec fn neighbour_total(cells: Seq<i8>, width: int, x: int, y: int) -> int {
    let up = cell_index(width, x, y - 1);
    let mid = cell_index(width, x, y);
    let down = cell_index(width, x, y + 1);
    cells[up - 1] as int + cells[up] as int + cells[up + 1] as int
        + cells[mid - 1] as int + cells[mid + 1] as int
        + cells[down - 1] as int + cells[down] as int + cells[down + 1] as int
}

/// The value of cell `(x, y)` in the generation after `cells`: dead on the
/// border, the rule of `mode` inside.
pub open spec fn next_cell(cells: Seq<i8>, width: int, height: int, x: int, y: int, mode: GenMode) -> int {
    if is_border(width, height, x, y) {
        0
    } else {
        rule_value(mode, neighbour_total(cells, width, x, y), cells[cell_index(width, x, y)] as int)
    }
}

/// The whole generation after `cells`, in row-major order.
pub open spec fn next_generation(cells: Seq<i8>, width: int, height: int, mode: GenMode) -> Seq<i8> {
    Seq::new(
        (width * height) as nat,
        |i: int| next_cell(cells, width, height, i % width, i / width, mode) as i8,
    )
}

/// Row `y` of the generation after `cells`: it reads the previous grid alone.
pub open spec fn next_row(cells: Seq<i8>, width: int, height: int, y: int, mode: GenMode) -> Seq<i8> {
    Seq::new(width as nat, |x: int| next_cell(cells, width, height, x, y, mode) as i8)
}

/// Rows laid end to end, in their order.
pub open spec fn join_rows(rows: Seq<Seq<i8>>) -> Seq<i8>
    decreases rows.len(),
{
    if rows.len() == 0 {
        Seq::empty()
    } else {
        join_rows(rows.drop_last()) + rows.last()
    }
}

/// Computes cell `(x, y)` of the next generation.
fn cell_next(cells: &Vec<i8>, width: usize, height: usize, x: usize, y: usize, mode: GenMode) -> (r: i8)
    requires
        grid_ok(cells@, width as int, height as int),
        x < width,
        y < height,
    ensures
        r as int == next_cell(cells@, width as int, height as int, x as int, y as int, mode),
{
    if x == 0 || x == width - 1 || y == 0 || y == height - 1 {
        0
    } else {
        proof {
            lemma_cell_index(width as int, height as int, x + 1, y + 1);
            assert(y * width >= width) by (nonlinear_arith)
                requires
                    y >= 1,
            ;
            assert((y - 1) * width == y * width - width) by (nonlinear_arith);
            assert((y + 1) * width == y * width + width) by (nonlinear_arith);
        }
        let mid = y * width + x;
        let up = mid - width;
        let down = mid + width;
        let total: i32 = cells[up - 1] as i32 + cells[up] as i32 + cells[up + 1] as i32
            + cells[mid - 1] as i32 + cells[mid + 1] as i32 + cells[down - 1] as i32
            + cells[down] as i32 + cells[down + 1] as i32;
        cell_rule(mode, total, cells[mid])
    }
}

/// Computes the next generation of a grid one cell after another.
pub fn next_cells(cells: &Vec<i8>, width: usize, height: usize, mode: GenMode) -> (r: Vec<i8>)
    requires
        grid_ok(cells@, width as int, height as int),
    ensures
        r@ == next_generation(cells@, width as int, height as int, mode),
{
    let ghost next = next_generation(cells@, width as int, height as int, mode);
    let mut v: Vec<i8> = Vec::new();
    let mut y: usize = 0;
    while y < height
        invariant
            grid_ok(cells@, width as int, height as int),
            next == next_generation(cells@, width as int, height as int, mode),
            y <= height,
            v@ == next.take(y * width),
        decreases height - y,
    {
        let mut x: usize = 0;
        while x < width
            invariant
                grid_ok(cells@, width as int, height as int),
                next == next_generation(cells@, width as int, height as int, mode),
                y < height,
                x <= width,
                v@ == next.take(y * width + x),
            decreases width - x,
        {
            let c = cell_next(cells, width, height, x, y, mode);
            proof {
                lemma_cell_index(width as int, height as int, x as int, y as int);
            }
            v.push(c);
            proof {
                assert(v@ =~= next.take(y * width + x + 1));
            }
            x += 1;
        }
        assert((y + 1) * width == y * width + width) by (nonlinear_arith);
        y += 1;
    }
    assert(y * width == width * height) by (nonlinear_arith)
        requires
            y == height,
    ;
    assert(v@ =~= next);
    v
}

/// The rows of the generation after `cells`, top to bottom.
pub open spec fn next_rows(cells: Seq<i8>, width: int, height: int, mode: GenMode) -> Seq<Seq<i8>> {
    Seq::new(height as nat, |y: int| next_row(cells, width, height, y, mode))
}

/// The first `k` rows of the next generation, joined, are its first `k * width` cells.
proof fn lemma_join_prefix(cells: Seq<i8>, width: int, height: int, mode: GenMode, k: int)
    requires
        grid_ok(cells, width, height),
        0 <= k <= height,
    ensures
        join_rows(next_rows(cells, width, height, mode).take(k)) == next_generation(
            cells,
            width,
            height,
            mode,
        ).take(k * width),
    decreases k,
{
    let rows = next_rows(cells, width, height, mode);
    let next = next_generation(cells, width, height, mode);
    if k == 0 {
        assert(k * width == 0) by (nonlinear_arith)
            requires
                k == 0,
        ;
        assert(join_rows(rows.take(0)) =~= next.take(0));
    } else {
        lemma_join_prefix(cells, width, height, mode, k - 1);
        assert(rows.take(k).drop_last() =~= rows.take(k - 1));
        assert(k * width == (k - 1) * width + width) by (nonlinear_arith);
        assert forall|x: int| 0 <= x < width implies next[(k - 1) * width + x] == #[trigger] rows[k - 1][x] by {
            lemma_cell_index(width, height, x, k - 1);
        }
        assert(k * width <= width * height) by (nonlinear_arith)
            requires
                k <= height,
                width >= 0,
        ;
        assert(rows.take(k).last() == rows[k - 1]);
        assert(join_rows(rows.take(k)) == join_rows(rows.take(k - 1)) + rows[k - 1]);
        assert(join_rows(rows.take(k)) =~= next.take(k * width));
    }
}

/// Rows of the next generation computed each on its own, from the previous
/// grid alone, and laid end to end in row order, are the next generation that
/// a cell-by-cell computation gives.
pub proof fn lemma_rows_join_to_next_generation(cells: Seq<i8>, width: int, height: int, mode: GenMode)
    requires
        grid_ok(cells, width, height),
    ensures
        join_rows(next_rows(cells, width, height, mode)) == next_generation(cells, width, height, mode),
{
    let rows = next_rows(cells, width, height, mode);
    lemma_join_prefix(cells, width, height, mode, height);
    assert(rows.take(height) =~= rows);
    assert(height * width == width * height) by (nonlinear_arith);
    assert(next_generation(cells, width, height, mode).take(height * width) =~= next_generation(
        cells,
        width,
        height,
        mode,
    ));
}

/// Computes row `y` of the next generation.
fn row_next(cells: &Vec<i8>, width: usize, height: usize, y: usize, mode: GenMode) -> (r: Vec<i8>)
    requires
        grid_ok(cells@, width as int, height as int),
        y < height,
    ensures
        r@ == next_row(cells@, width as int, height as int, y as int, mode),
{
    let mut v: Vec<i8> = Vec::new();
    let mut x: usize = 0;
    while x < width
        invariant
            grid_ok(cells@, width as int, height as int),
            y < height,
            x <= width,
            v@ == next_row(cells@, width as int, height as int, y as int, mode).take(x as int),
        decreases width - x,
    {
        let c = cell_next(cells, width, height, x, y, mode);
        v.push(c);
        proof {
            assert(v@ =~= next_row(cells@, width as int, height as int, y as int, mode).take(
                x + 1,
            ));
        }
        x += 1;
    }
    assert(v@ =~= next_row(cells@, width as int, height as int, y as int, mode));
    v
}

/// Relies on rayon: `into_par_iter` on a range of `usize`, `map`, and
/// `collect` into a `Vec`, which keeps the order of the range whatever thread
/// computed each item. Each item is one call of `row_next`.
#[verifier::external_body]
fn par_rows(cells: &Vec<i8>, width: usize, height: usize, first: usize, end: usize, mode: GenMode) -> (r: Vec<Vec<i8>>)
    requires
        grid_ok(cells@, width as int, height as int),
        first <= end <= height,
    ensures
        r@.len() == end - first,
        forall|i: int|
            0 <= i < r@.len() ==> #[trigger] r@[i]@ == next_row(
                cells@,
                width as int,
                height as int,
                first + i,
                mode,
            ),
{
    (first..end).into_par_iter().map(|y| row_next(cells, width, height, y, mode)).collect()
}

/// Appends row `k` of the next generation to the first `k` rows.
fn push_row(v: &mut Vec<i8>, row: &Vec<i8>, Ghost(cells): Ghost<Seq<i8>>, width: usize, height: usize, k: usize, mode: GenMode)
    requires
        grid_ok(cells, width as int, height as int),
        k < height,
        old(v)@ == join_rows(next_rows(cells, width as int, height as int, mode).take(k as int)),
        row@ == next_row(cells, width as int, height as int, k as int, mode),
    ensures
        final(v)@ == join_rows(next_rows(cells, width as int, height as int, mode).take(k + 1)),
{
    let ghost rows = next_rows(cells, width as int, height as int, mode);
    let ghost start = v@;
    let mut x: usize = 0;
    while x < width
        invariant
            x <= width,
            row@.len() == width,
            v@ == start + row@.take(x as int),
        decreases width - x,
    {
        v.push(row[x]);
        proof {
            assert(v@ =~= start + row@.take(x + 1));
        }
        x += 1;
    }
    assert(rows.take(k + 1).drop_last() =~= rows.take(k as int));
    assert(row@.take(width as int) =~= row@);
    assert(v@ =~= join_rows(rows.take(k + 1)));
}

/// Computes the next generation with the interior rows shared out among
/// threads, then joined in row order between the two dead border rows.
pub fn next_cells_parallel(cells: &Vec<i8>, width: usize, height: usize, mode: GenMode) -> (r: Vec<i8>)
    requires
        grid_ok(cells@, width as int, height as int),
    ensures
        r@ == next_generation(cells@, width as int, height as int, mode),
{
    let ghost rows = next_rows(cells@, width as int, height as int, mode);
    let interior = par_rows(cells, width, height, 1, height - 1, mode);
    let mut v: Vec<i8> = Vec::new();
    proof {
        assert(rows.take(0) =~= Seq::<Seq<i8>>::empty());
        assert(v@ =~= join_rows(rows.take(0)));
    }
    let top = row_next(cells, width, height, 0, mode);
    push_row(&mut v, &top, Ghost(cells@), width, height, 0, mode);
    let mut k: usize = 1;
    while k < height - 1
        invariant
            grid_ok(cells@, width as int, height as int),
            rows == next_rows(cells@, width as int, height as int, mode),
            1 <= k <= height - 1,
            interior@.len() == height - 2,
            forall|i: int|
                0 <= i < interior@.len() ==> #[trigger] interior@[i]@ == next_row(
                    cells@,
                    width as int,
                    height as int,
                    1 + i,
                    mode,
                ),
            v@ == join_rows(rows.take(k as int)),
        decreases height - k,
    {
        assert(interior@[k - 1]@ == next_row(cells@, width as int, height as int, k as int, mode));
        push_row(&mut v, &interior[k - 1], Ghost(cells@), width, height, k, mode);
        k += 1;
    }
    let bottom = row_next(cells, width, height, height - 1, mode);
    push_row(&mut v, &bottom, Ghost(cells@), width, height, height - 1, mode);
    proof {
        assert(rows.take(height as int) =~= rows);
        lemma_rows_join_to_next_generation(cells@, width as int, height as int, mode);
    }
    v
}

} // verus!
