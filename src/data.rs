use vstd::prelude::*;

use crate::grid::{dims_ok, GridError, MIN_SIDE};
use crate::rules::GenMode;
use crate::sketch::{GenSketch, SketchModel};

verus! {

/// Width and height of the grid that a new session starts with.
pub const FIXED_WIDTH: usize = 500;

pub const FIXED_HEIGHT: usize = 500;

/// Seeds lie below this bound.
pub const SEED_LIMIT: u64 = 1_000_000_000_000;

/// The iteration that a jump goes to when nothing else was chosen.
pub const INIT_JUMPTO: u64 = 120;

/// Density one half, on the scale where `DENSITY_ONE` is one.
pub const HALF_DENSITY: u64 = 4503599627370496;

/// Relies on rand's `random`, a draw from the thread-local generator: nothing
/// is known of the value.
pub assume_specification<T>[ rand::random::<T> ]() -> T
    where
        rand::distributions::Standard: rand::distributions::Distribution<T>,
;

/// Brings a raw 64-bit draw into the range of seeds.
pub fn seed_in_range(raw: u64) -> (r: u64)
    ensures
        r == raw % SEED_LIMIT,
        r < SEED_LIMIT,
{
    raw % SEED_LIMIT
}

/// The settings of a session and its current run.
#[derive(Clone)]
pub struct GenData {
    pub running: bool,
    /// Rule, seed and density that the next restart applies.
    pub mode: GenMode,
    pub seed: u64,
    pub startdensity: u64,
    /// The iteration that a jump goes to.
    pub jumpto: u64,
    pub width: usize,
    pub height: usize,
    pub sketch: GenSketch,
}

impl GenData {
    pub open spec fn wf(&self) -> bool {
        dims_ok(self.width as int, self.height as int) && self.sketch.wf()
    }

    /// The run that a restart with the current settings gives.
    pub open spec fn fresh(&self) -> SketchModel {
        SketchModel::initial(
            self.width as int,
            self.height as int,
            self.mode,
            self.seed,
            self.startdensity,
        )
    }

    /// The two hold the same settings, the grid's dimensions aside.
    pub open spec fn same_choices(&self, other: &GenData) -> bool {
        &&& self.running == other.running
        &&& self.mode == other.mode
        &&& self.seed == other.seed
        &&& self.startdensity == other.startdensity
        &&& self.jumpto == other.jumpto
    }

    /// A new session on a 500 by 500 grid with the experiment rule, density
    /// one half and a fresh random seed, not running.
    pub fn new() -> (r: Self)
        ensures
            r.wf(),
            !r.running,
            r.mode == GenMode::Experiment,
            r.seed < SEED_LIMIT,
            r.startdensity == HALF_DENSITY,
            r.jumpto == INIT_JUMPTO,
            r.width == FIXED_WIDTH,
            r.height == FIXED_HEIGHT,
            r.sketch@ == r.fresh(),
            r.sketch.spent() == 0,
    {
        let startdensity = HALF_DENSITY;
        let mode = GenMode::Experiment;
        let seed = Self::make_seed();
        assert(dims_ok(FIXED_WIDTH as int, FIXED_HEIGHT as int));
        let sketch = match GenSketch::new(FIXED_WIDTH, FIXED_HEIGHT, mode, seed, startdensity) {
            Ok(s) => s,
            Err(_) => vstd::pervasive::unreached(),
        };
        GenData {
            mode,
            width: FIXED_WIDTH,
            height: FIXED_HEIGHT,
            seed,
            startdensity,
            sketch,
            running: false,
            jumpto: INIT_JUMPTO,
        }
    }

    /// Takes new dimensions and restarts the run on them, which discards its
    /// progress. Dimensions that cannot hold a grid are refused, and nothing
    /// changes.
    pub fn resize(&mut self, width: usize, height: usize) -> (r: Result<(), GridError>)
        requires
            old(self).wf(),
        ensures
            final(self).wf(),
            final(self).same_choices(old(self)),
            r is Ok <==> dims_ok(width as int, height as int),
            r == Err::<(), GridError>(GridError::TooSmall) <==> (width < MIN_SIDE || height
                < MIN_SIDE),
            r is Ok ==> final(self).width == width && final(self).height == height
                && final(self).sketch@ == final(self).fresh() && final(self).sketch.spent() == 0,
            r is Err ==> final(self).width == old(self).width && final(self).height == old(
                self,
            ).height && final(self).sketch@ == old(self).sketch@ && final(self).sketch.spent()
                == old(self).sketch.spent(),
    {
        match GenSketch::new(width, height, self.mode, self.seed, self.startdensity) {
            Err(e) => Err(e),
            Ok(sketch) => {
                self.width = width;
                self.height = height;
                self.sketch = sketch;
                Ok(())
            },
        }
    }

    /// Starts the run again from its seeded grid with the current settings.
    pub fn restart(&mut self)
        requires
            old(self).wf(),
        ensures
            final(self).wf(),
            final(self).same_choices(old(self)),
            final(self).width == old(self).width,
            final(self).height == old(self).height,
            final(self).sketch@ == final(self).fresh(),
            final(self).sketch.spent() == 0,
    {
        match GenSketch::new(self.width, self.height, self.mode, self.seed, self.startdensity) {
            Ok(sketch) => {
                self.sketch = sketch;
            },
            Err(_) => {
                assert(false);
            },
        }
    }

    /// A fresh random seed below `SEED_LIMIT`.
    fn make_seed() -> (r: u64)
        ensures
            r < SEED_LIMIT,
    {
        seed_in_range(rand::random::<u64>())
    }

    /// Draws a fresh seed for the next restart; the run itself is left as it is.
    pub fn random_seed(&mut self)
        ensures
            final(self).seed < SEED_LIMIT,
            final(self).running == old(self).running,
            final(self).mode == old(self).mode,
            final(self).startdensity == old(self).startdensity,
            final(self).jumpto == old(self).jumpto,
            final(self).width == old(self).width,
            final(self).height == old(self).height,
            final(self).sketch == old(self).sketch,
    {
        self.seed = Self::make_seed();
    }
}

} // verus!
