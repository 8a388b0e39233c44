use vstd::prelude::*;

use crate::grid::{cell_index, dims_ok, grid_ok, initial_cells, initialize, GridError, MIN_SIDE};
use crate::render::{render, rendered};
use crate::rules::{is_border, next_cells_parallel, next_generation, GenMode};

verus! {

#[verifier::external_type_specification]
#[verifier::external_body]
pub struct ExInstant(std::time::Instant);

/// Relies on std's `Instant::now`: a reading of the monotonic clock, of which
/// nothing is known in advance.
pub assume_specification[ std::time::Instant::now ]() -> std::time::Instant;

/// Relies on std's `Instant::elapsed` and `Duration::as_nanos`: the time since
/// `start`, in nanoseconds. It depends on the clock, so nothing is promised of it.
#[verifier::external_body]
fn nanos_since(start: &std::time::Instant) -> (r: u128) {
    start.elapsed().as_nanos()
}

/// What a run is at one moment: its iteration count, its rule and its grid.
pub struct SketchModel {
    pub iter: int,
    pub mode: GenMode,
    pub cells: Seq<i8>,
    pub width: int,
    pub height: int,
}

impl SketchModel {
    pub open spec fn wf(self) -> bool {
        grid_ok(self.cells, self.width, self.height)
    }

    /// A fresh run: iteration zero and the seeded starting grid.
    pub open spec fn initial(width: int, height: int, mode: GenMode, seed: u64, density: u64) -> SketchModel {
        SketchModel {
            iter: 0,
            mode,
            cells: initial_cells(seed, (width * height) as nat, density),
            width,
            height,
        }
    }

    /// One generation later.
    pub open spec fn stepped(self) -> SketchModel {
        SketchModel {
            iter: self.iter + 1,
            cells: next_generation(self.cells, self.width, self.height, self.mode),
            ..self
        }
    }

    /// `n` generations later.
    pub open spec fn steps(self, n: nat) -> SketchModel
        decreases n,
    {
        if n == 0 {
            self
        } else {
            self.steps((n - 1) as nat).stepped()
        }
    }
}

/// After `n` steps the iteration count has grown by exactly `n`; the rule and
/// the dimensions stay, and the grid keeps its shape.
pub proof fn lemma_steps_count(m: SketchModel, n: nat)
    ensures
        m.steps(n).iter == m.iter + n,
        m.steps(n).mode == m.mode,
        m.steps(n).width == m.width,
        m.steps(n).height == m.height,
        m.wf() ==> m.steps(n).wf(),
    decreases n,
{
    if n > 0 {
        lemma_steps_count(m, (n - 1) as nat);
    }
}

/// After one step or more, every cell of the first and last rows and columns
/// is dead.
pub proof fn lemma_border_dead_after_steps(m: SketchModel, n: nat)
    requires
        m.wf(),
        n >= 1,
    ensures
        forall|x: int, y: int|
            0 <= x < m.width && 0 <= y < m.height && is_border(m.width, m.height, x, y)
                ==> #[trigger] m.steps(n).cells[cell_index(m.width, x, y)] == 0,
{
    let p = m.steps((n - 1) as nat);
    lemma_steps_count(m, (n - 1) as nat);
    assert forall|x: int, y: int|
        0 <= x < m.width && 0 <= y < m.height && is_border(
            m.width,
            m.height,
            x,
            y,
        ) implies #[trigger] m.steps(n).cells[cell_index(m.width, x, y)] == 0 by {
        crate::grid::lemma_cell_index(m.width, m.height, x, y);
    }
}

/// A run of the automaton: the current grid, the rule, the number of steps
/// taken and the time they took.
#[derive(Clone)]
pub struct GenSketch {
    iter: u64,
    mode: GenMode,
    cells: Vec<i8>,
    width: usize,
    height: usize,
    elapsed_nanos: u64,
}

impl View for GenSketch {
    type V = SketchModel;

    closed spec fn view(&self) -> SketchModel {
        SketchModel {
            iter: self.iter as int,
            mode: self.mode,
            cells: self.cells@,
            width: self.width as int,
            height: self.height as int,
        }
    }
}

impl GenSketch {
    pub open spec fn wf(&self) -> bool {
        self@.wf()
    }

    /// Nanoseconds spent in `step` so far, saturating.
    pub closed spec fn spent(&self) -> nat {
        self.elapsed_nanos as nat
    }

    /// Starts a run on a `width` by `height` grid seeded from `seed` at the
    /// given density, or says why such a grid cannot be built.
    pub fn new(width: usize, height: usize, mode: GenMode, seed: u64, startdensity: u64) -> (r: Result<GenSketch, GridError>)
        ensures
            match r {
                Ok(s) => dims_ok(width as int, height as int) && s.wf() && s@ == SketchModel::initial(
                    width as int,
                    height as int,
                    mode,
                    seed,
                    startdensity,
                ) && s.spent() == 0,
                Err(e) => !dims_ok(width as int, height as int) && (e == GridError::TooSmall <==> (
                width < MIN_SIDE || height < MIN_SIDE)),
            },
    {
        match initialize(width, height, seed, startdensity) {
            Err(e) => Err(e),
            Ok(cells) => {
                Ok(GenSketch { iter: 0, mode, cells, width, height, elapsed_nanos: 0 })
            },
        }
    }

    /// Steps until the iteration count reaches `until`; nothing when it
    /// already has.
    pub fn skip(&mut self, until: u64)
        requires
            old(self).wf(),
        ensures
            final(self).wf(),
            final(self)@ == if old(self)@.iter < until {
                old(self)@.steps((until - old(self)@.iter) as nat)
            } else {
                old(self)@
            },
            final(self).spent() >= old(self).spent(),
    {
        let ghost start = self@;
        let ghost spent0 = self.spent();
        while self.iter < until
            invariant
                self.wf(),
                start.iter <= self@.iter,
                start.iter < until ==> self@.iter <= until,
                start.iter >= until ==> self@.iter == start.iter,
                self@ == start.steps((self@.iter - start.iter) as nat),
                self.spent() >= spent0,
            decreases until - self.iter,
        {
            let ghost before = self@;
            self.step();
            proof {
                assert(start.steps((self@.iter - start.iter) as nat) == start.steps(
                    (before.iter - start.iter) as nat,
                ).stepped());
            }
        }
    }

    /// Computes the next generation and takes it as the current grid; the
    /// iteration count grows by one, and the time the step took is added.
    pub fn step(&mut self)
        requires
            old(self).wf(),
            old(self)@.iter < u64::MAX,
        ensures
            final(self).wf(),
            final(self)@ == old(self)@.stepped(),
            final(self).spent() >= old(self).spent(),
    {
        let start = std::time::Instant::now();
        let next = next_cells_parallel(&self.cells, self.width, self.height, self.mode);
        self.cells = next;
        self.iter = self.iter + 1;
        let took = nanos_since(&start);
        if took >= (u64::MAX - self.elapsed_nanos) as u128 {
            self.elapsed_nanos = u64::MAX;
        } else {
            self.elapsed_nanos = self.elapsed_nanos + took as u64;
        }
    }

    /// The current grid as RGBA bytes: live cells white, dead cells black.
    pub fn get_image_buffer(&self) -> (r: Vec<u8>)
        requires
            self.wf(),
        ensures
            r@ == rendered(self@.cells, false),
    {
        render(&self.cells, false)
    }

    /// The current grid as RGBA bytes, with live cells black and dead cells
    /// white where `invert` is set.
    pub fn image_buffer(&self, invert: bool) -> (r: Vec<u8>)
        requires
            self.wf(),
        ensures
            r@ == rendered(self@.cells, invert),
    {
        render(&self.cells, invert)
    }

    pub fn iter(&self) -> (r: u64)
        ensures
            r == self@.iter,
    {
        self.iter
    }

    pub fn mode(&self) -> (r: GenMode)
        ensures
            r == self@.mode,
    {
        self.mode
    }

    pub fn width(&self) -> (r: usize)
        ensures
            r == self@.width,
    {
        self.width
    }

    pub fn height(&self) -> (r: usize)
        ensures
            r == self@.height,
    {
        self.height
    }

    pub fn cells(&self) -> (r: &Vec<i8>)
        ensures
            r@ == self@.cells,
    {
        &self.cells
    }

    pub fn elapsed_nanos(&self) -> (r: u64)
        ensures
            r == self.spent(),
    {
        self.elapsed_nanos
    }
}

} // verus!
