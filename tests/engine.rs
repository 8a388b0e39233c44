use lookcentres::data::{seed_in_range, GenData, FIXED_HEIGHT, FIXED_WIDTH, HALF_DENSITY, INIT_JUMPTO, SEED_LIMIT};
use lookcentres::grid::{cells_from_draws, check_dims, initialize, GridError, DENSITY_ONE};
use lookcentres::render::render;
use lookcentres::rules::{cell_rule, next_cells, next_cells_parallel, GenMode};
use lookcentres::sketch::GenSketch;
use rand::{Rng, SeedableRng};

const MODES: [GenMode; 5] = [
    GenMode::Majority,
    GenMode::Annealing,
    GenMode::Star1,
    GenMode::TwoBonus,
    GenMode::Experiment,
];

fn sketch(w: usize, h: usize, mode: GenMode, seed: u64) -> GenSketch {
    GenSketch::new(w, h, mode, seed, HALF_DENSITY).unwrap()
}

fn border_is_dead(cells: &[i8], w: usize, h: usize) -> bool {
    (0..h).all(|y| {
        (0..w).all(|x| {
            let border = x == 0 || y == 0 || x == w - 1 || y == h - 1;
            !border || cells[y * w + x] == 0
        })
    })
}

#[test]
fn initialize_is_deterministic() {
    let a = initialize(40, 30, 12345, HALF_DENSITY).unwrap();
    let b = initialize(40, 30, 12345, HALF_DENSITY).unwrap();
    assert_eq!(a, b);
    let c = initialize(40, 30, 12346, HALF_DENSITY).unwrap();
    assert_ne!(a, c);
}

#[test]
fn initialize_matches_unit_draws_of_the_generator() {
    let seed = 987_654_321;
    let cells = initialize(20, 15, seed, HALF_DENSITY).unwrap();
    let mut rng = rand_pcg::Pcg64::seed_from_u64(seed);
    let expected: Vec<i8> = (0..300).map(|_| (rng.gen::<f64>() < 0.5) as i8).collect();
    assert_eq!(cells, expected);
}

#[test]
fn density_half_gives_half_alive() {
    let cells = initialize(500, 500, 42, HALF_DENSITY).unwrap();
    assert_eq!(cells.len(), 250_000);
    let alive = cells.iter().filter(|&&c| c != 0).count();
    let fraction = alive as f64 / cells.len() as f64;
    assert!((fraction - 0.5).abs() <= 0.01, "fraction {}", fraction);
}

#[test]
fn density_extremes() {
    let none = initialize(10, 10, 7, 0).unwrap();
    assert!(none.iter().all(|&c| c == 0));
    let all = initialize(10, 10, 7, DENSITY_ONE).unwrap();
    assert!(all.iter().all(|&c| c == 1));
}

#[test]
fn cells_from_draws_thresholds_top_bits() {
    let draws = vec![0u64, 2047, 2048, u64::MAX];
    assert_eq!(cells_from_draws(&draws, 1), vec![1, 1, 0, 0]);
    assert_eq!(cells_from_draws(&draws, 0), vec![0, 0, 0, 0]);
    assert_eq!(cells_from_draws(&draws, DENSITY_ONE), vec![1, 1, 1, 1]);
    assert_eq!(cells_from_draws(&draws, DENSITY_ONE - 1), vec![1, 1, 1, 0]);
}

#[test]
fn too_small_dimensions_are_refused() {
    assert_eq!(initialize(2, 10, 1, HALF_DENSITY), Err(GridError::TooSmall));
    assert_eq!(initialize(10, 0, 1, HALF_DENSITY), Err(GridError::TooSmall));
    assert!(matches!(GenSketch::new(3, 2, GenMode::Majority, 1, 0), Err(GridError::TooSmall)));
    assert_eq!(check_dims(3, 3), Ok(()));
}

#[test]
fn unaddressable_dimensions_are_refused() {
    assert_eq!(check_dims(usize::MAX, 3), Err(GridError::TooLarge));
    assert_eq!(check_dims(usize::MAX / 8, 3), Err(GridError::TooLarge));
    assert_eq!(initialize(usize::MAX / 2, 5, 1, 0), Err(GridError::TooLarge));
}

#[test]
fn mode_arithmetic_total_four_prev_zero() {
    assert_eq!(cell_rule(GenMode::Majority, 4, 0), 0);
    assert_eq!(cell_rule(GenMode::Annealing, 4, 0), 1);
    assert_eq!(cell_rule(GenMode::Star1, 4, 0), 2);
    assert_eq!(cell_rule(GenMode::TwoBonus, 4, 0), 3);
    assert_eq!(cell_rule(GenMode::Experiment, 4, 0), 1);
}

#[test]
fn mode_arithmetic_other_totals() {
    assert_eq!(cell_rule(GenMode::Majority, 5, 0), 1);
    assert_eq!(cell_rule(GenMode::Annealing, 5, 1), 0);
    assert_eq!(cell_rule(GenMode::Star1, 5, 1), -1);
    assert_eq!(cell_rule(GenMode::TwoBonus, 3, 2), -2);
    assert_eq!(cell_rule(GenMode::TwoBonus, 6, 1), 1);
    assert_eq!(cell_rule(GenMode::Experiment, 6, -1), 4);
    assert_eq!(cell_rule(GenMode::Experiment, 6, 0), 1);
    assert_eq!(cell_rule(GenMode::Experiment, 5, 3), 0);
    assert_eq!(cell_rule(GenMode::Experiment, 4, -2), 1);
}

#[test]
fn next_cells_on_a_hand_made_grid() {
    // 4 by 4, the four interior cells each see the eight ones round them
    let cells: Vec<i8> = vec![1; 16];
    let next = next_cells(&cells, 4, 4, GenMode::Majority);
    let mut expected = vec![0i8; 16];
    for i in [5, 6, 9, 10] {
        expected[i] = 1;
    }
    assert_eq!(next, expected);

    // 3 by 3 with a ring of four: the centre sees exactly four
    let cells: Vec<i8> = vec![0, 1, 0, 1, 0, 1, 0, 1, 0];
    assert_eq!(next_cells(&cells, 3, 3, GenMode::Majority)[4], 0);
    assert_eq!(next_cells(&cells, 3, 3, GenMode::Annealing)[4], 1);
    assert_eq!(next_cells(&cells, 3, 3, GenMode::Star1)[4], 2);
    assert_eq!(next_cells(&cells, 3, 3, GenMode::TwoBonus)[4], 3);
    assert_eq!(next_cells(&cells, 3, 3, GenMode::Experiment)[4], 1);
    assert!(border_is_dead(&next_cells(&cells, 3, 3, GenMode::TwoBonus), 3, 3));
}

#[test]
fn centre_value_is_not_counted() {
    // eight neighbours sum to 4, the centre holds 100
    let cells: Vec<i8> = vec![1, 1, 0, 1, 100, 1, 0, 0, 0];
    assert_eq!(next_cells(&cells, 3, 3, GenMode::Majority)[4], 0);
    assert_eq!(next_cells(&cells, 3, 3, GenMode::Annealing)[4], 1);
}

#[test]
fn parallel_matches_sequential_for_every_mode() {
    for mode in MODES {
        let mut s = sketch(37, 23, mode, 2024);
        for _ in 0..6 {
            let cells = s.cells().clone();
            let seq = next_cells(&cells, 37, 23, mode);
            let par = next_cells_parallel(&cells, 37, 23, mode);
            assert_eq!(seq, par);
            s.step();
            assert_eq!(s.cells(), &seq);
        }
    }
}

#[test]
fn border_stays_dead_after_steps() {
    for mode in MODES {
        let mut s = sketch(30, 20, mode, 77);
        for _ in 0..10 {
            s.step();
            assert!(border_is_dead(s.cells(), 30, 20));
        }
    }
}

#[test]
fn step_counts_iterations() {
    let mut s = sketch(12, 9, GenMode::Star1, 3);
    assert_eq!(s.iter(), 0);
    for n in 1..=7u64 {
        s.step();
        assert_eq!(s.iter(), n);
    }
    assert_eq!(s.mode(), GenMode::Star1);
    assert_eq!((s.width(), s.height()), (12, 9));
}

#[test]
fn skip_reaches_target_and_never_goes_back() {
    let mut s = sketch(12, 9, GenMode::Experiment, 3);
    s.skip(5);
    assert_eq!(s.iter(), 5);
    let cells = s.cells().clone();
    s.skip(3);
    assert_eq!(s.iter(), 5);
    assert_eq!(s.cells(), &cells);
    s.skip(5);
    assert_eq!(s.iter(), 5);

    let mut t = sketch(12, 9, GenMode::Experiment, 3);
    for _ in 0..5 {
        t.step();
    }
    assert_eq!(t.cells(), s.cells());
}

#[test]
fn elapsed_time_never_shrinks() {
    let mut s = sketch(50, 50, GenMode::Annealing, 9);
    assert_eq!(s.elapsed_nanos(), 0);
    let mut last = 0;
    for _ in 0..3 {
        s.step();
        assert!(s.elapsed_nanos() >= last);
        last = s.elapsed_nanos();
    }
}

#[test]
fn render_single_live_cell() {
    let (w, h, x, y) = (7usize, 5usize, 3usize, 2usize);
    let mut cells = vec![0i8; w * h];
    let background = render(&cells, false);
    cells[y * w + x] = 1;
    let image = render(&cells, false);
    assert_eq!(image.len(), w * h * 4);
    let at = (y * w + x) * 4;
    for (j, (a, b)) in image.iter().zip(background.iter()).enumerate() {
        if (at..at + 3).contains(&j) {
            assert_ne!(a, b);
        } else {
            assert_eq!(a, b);
        }
    }
    assert_eq!(&image[at..at + 4], &[255, 255, 255, 255]);
}

#[test]
fn render_bytes_and_inversion() {
    let cells: Vec<i8> = vec![0, 1, -1];
    assert_eq!(render(&cells, false), vec![0, 0, 0, 255, 255, 255, 255, 255, 255, 255, 255, 255]);
    assert_eq!(render(&cells, true), vec![255, 255, 255, 255, 0, 0, 0, 255, 0, 0, 0, 255]);
    assert!(render(&Vec::new(), false).is_empty());
    let s = sketch(4, 3, GenMode::Majority, 5);
    assert_eq!(s.get_image_buffer(), render(s.cells(), false));
    assert_eq!(s.image_buffer(true), render(s.cells(), true));
}

#[test]
fn seed_range() {
    assert_eq!(seed_in_range(SEED_LIMIT + 5), 5);
    assert_eq!(seed_in_range(17), 17);
    assert!(seed_in_range(u64::MAX) < SEED_LIMIT);
}

#[test]
fn new_session_defaults() {
    let d = GenData::new();
    assert!(!d.running);
    assert_eq!(d.mode, GenMode::Experiment);
    assert!(d.seed < SEED_LIMIT);
    assert_eq!(d.startdensity, HALF_DENSITY);
    assert_eq!(d.jumpto, INIT_JUMPTO);
    assert_eq!((d.width, d.height), (FIXED_WIDTH, FIXED_HEIGHT));
    assert_eq!(d.sketch.iter(), 0);
    assert_eq!(d.sketch.cells(), &initialize(500, 500, d.seed, HALF_DENSITY).unwrap());
}

#[test]
fn resize_resets_progress() {
    let mut d = GenData::new();
    d.resize(40, 30).unwrap();
    d.sketch.skip(8);
    assert_eq!(d.sketch.iter(), 8);
    assert_eq!(d.resize(60, 45), Ok(()));
    assert_eq!(d.sketch.iter(), 0);
    assert_eq!((d.sketch.width(), d.sketch.height()), (60, 45));
    assert_eq!(d.sketch.cells(), &initialize(60, 45, d.seed, d.startdensity).unwrap());
    let alive = d.sketch.cells().iter().filter(|&&c| c != 0).count();
    assert!(alive > 1000 && alive < 1700, "alive {}", alive);
}

#[test]
fn resize_refuses_small_dimensions() {
    let mut d = GenData::new();
    d.resize(20, 20).unwrap();
    d.sketch.skip(2);
    assert_eq!(d.resize(2, 50), Err(GridError::TooSmall));
    assert_eq!((d.width, d.height), (20, 20));
    assert_eq!(d.sketch.iter(), 2);
}

#[test]
fn restart_and_reseed() {
    let mut d = GenData::new();
    d.resize(25, 25).unwrap();
    d.seed = 555;
    d.restart();
    let first = d.sketch.cells().clone();
    d.sketch.skip(4);
    d.restart();
    assert_eq!(d.sketch.iter(), 0);
    assert_eq!(d.sketch.cells(), &first);
    d.random_seed();
    assert!(d.seed < SEED_LIMIT);
    assert_eq!(d.sketch.cells(), &first);
}
