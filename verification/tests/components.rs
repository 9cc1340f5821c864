use pathfinder::fitness::fitness;
use pathfinder::grid::Grid;
use pathfinder::population::{crossover_at, Population};
use pathfinder::rng::Rng;
use pathfinder::select::select_index;
use pathfinder::unit::{step_unit, Unit};

#[test]
fn grid_marks_and_looks_up_cells() {
    let mut grid = Grid::new(3);
    assert_eq!(grid.lookup(0, 0), Some(false));
    assert_eq!(grid.lookup(2, 2), Some(false));
    assert_eq!(grid.lookup(3, 0), None);
    assert_eq!(grid.lookup(0, 3), None);
    grid.mark(1, 2);
    assert_eq!(grid.lookup(1, 2), Some(true));
    assert_eq!(grid.lookup(2, 1), Some(false));
    // An out-of-range mark is ignored.
    grid.mark(9, 9);
    assert_eq!(grid.lookup(9, 9), None);
}

#[test]
fn step_leaves_position_on_grid_exit() {
    let grid = Grid::new(3);
    // West and north from the corner would exit the grid.
    assert_eq!(step_unit(&grid, 3, 0, 0, 0), (0, 0));
    assert_eq!(step_unit(&grid, 3, 0, 0, 1), (0, 0));
    // East and south from the far corner would exit the grid.
    assert_eq!(step_unit(&grid, 3, 2, 2, 2), (2, 2));
    assert_eq!(step_unit(&grid, 3, 2, 2, 3), (2, 2));
}

#[test]
fn step_leaves_position_on_blocked_cell() {
    let mut grid = Grid::new(3);
    grid.mark(1, 0);
    assert_eq!(step_unit(&grid, 3, 0, 0, 2), (0, 0));
    grid.mark(0, 1);
    assert_eq!(step_unit(&grid, 3, 0, 0, 3), (0, 0));
}

#[test]
fn step_moves_into_free_cells() {
    let grid = Grid::new(3);
    assert_eq!(step_unit(&grid, 3, 0, 0, 2), (1, 0));
    assert_eq!(step_unit(&grid, 3, 1, 0, 3), (1, 1));
    assert_eq!(step_unit(&grid, 3, 1, 1, 0), (0, 1));
    assert_eq!(step_unit(&grid, 3, 0, 1, 1), (0, 0));
}

#[test]
fn fitness_is_exact_at_and_near_the_target() {
    // At the target: 100_000_000 / isqrt(1 * 1_000_000) = 100_000.
    assert_eq!(fitness(4, 4, 4, 4), 100_000);
    // One cell away: d2 = 1, isqrt(2_000_000) = 1414, 100_000_000 / 1414 = 70721.
    assert_eq!(fitness(0, 0, 0, 1), 70721);
    // Far corner of a 5x5 map: d2 = 32, isqrt(33_000_000) = 5744,
    // 100_000_000 / 5744 = 17409.
    assert_eq!(fitness(0, 0, 4, 4), 17409);
}

#[test]
fn fitness_decreases_with_distance_and_stays_positive() {
    let mut last = u64::MAX;
    for d in 0..=9 {
        let f = fitness(0, 0, d, 0);
        assert!(f >= 1);
        assert!(f < last);
        last = f;
    }
}

#[test]
fn selection_scans_in_order() {
    let fits: Vec<u64> = vec![5, 3, 2];
    // The first unit covers samples up to its own score.
    assert_eq!(select_index(&fits, 0), 0);
    assert_eq!(select_index(&fits, 5), 0);
    // Then the scan consumes 5 and the second unit covers what remains.
    assert_eq!(select_index(&fits, 6), 1);
    assert_eq!(select_index(&fits, 8), 1);
    // The last sample falls to the last unit.
    assert_eq!(select_index(&fits, 9), 2);
}

#[test]
fn selection_always_picks_some_unit() {
    let fits: Vec<u64> = vec![1, 1, 1, 1];
    for r in 0..4u64 {
        let idx = select_index(&fits, r);
        assert!(idx < fits.len());
    }
}

#[test]
fn crossover_takes_prefix_from_a_and_suffix_from_b() {
    let a = Unit { x: 9, y: 9, genome: vec![0, 1, 2, 3] };
    let b = Unit { x: 5, y: 5, genome: vec![3, 2, 1, 0] };
    for mid in 0..4usize {
        let child = crossover_at(&a, &b, mid);
        assert_eq!(child.x, 0);
        assert_eq!(child.y, 0);
        assert_eq!(child.genome.len(), 4);
        for k in 0..4usize {
            if k < mid {
                assert_eq!(child.genome[k], a.genome[k]);
            } else {
                assert_eq!(child.genome[k], b.genome[k]);
            }
        }
    }
}

#[test]
fn zero_mutation_rate_keeps_the_genome() {
    let mut rng = Rng::from_seed(11);
    let population = Population::new(3, 5, 4, 0, &mut rng);
    let mut unit = Unit { x: 0, y: 0, genome: vec![0, 1, 2, 3, 0] };
    population.mutate(&mut unit, &mut rng);
    assert_eq!(unit.genome, vec![0, 1, 2, 3, 0]);
}

#[test]
fn full_mutation_rate_keeps_codes_valid() {
    let mut rng = Rng::from_seed(11);
    let population = Population::new(3, 5, 4, 1_000_000, &mut rng);
    let mut unit = Unit { x: 0, y: 0, genome: vec![0, 0, 0, 0, 0] };
    population.mutate(&mut unit, &mut rng);
    assert_eq!(unit.genome.len(), 5);
    for &code in unit.genome.iter() {
        assert!((0..=3).contains(&code));
    }
}

#[test]
fn new_population_places_units_down_the_first_column() {
    let mut rng = Rng::from_seed(3);
    let population = Population::new(7, 4, 5, 50_000, &mut rng);
    assert_eq!(population.units.len(), 7);
    for (i, unit) in population.units.iter().enumerate() {
        assert_eq!(unit.x, 0);
        assert_eq!(unit.y, i as i32);
        assert_eq!(unit.genome.len(), 4);
        for &code in unit.genome.iter() {
            assert!((0..=3).contains(&code));
        }
    }
    // Placement cells inside the grid are marked blocked; the rest are free.
    for y in 0..5usize {
        assert_eq!(population.map.lookup(0, y), Some(true));
        assert_eq!(population.map.lookup(1, y), Some(false));
    }
}

#[test]
fn reset_moves_every_unit_and_keeps_genomes() {
    let mut rng = Rng::from_seed(5);
    let mut population = Population::new(4, 3, 5, 50_000, &mut rng);
    let genomes: Vec<Vec<i32>> = population.units.iter().map(|u| u.genome.clone()).collect();
    population.reset(2, 3);
    for (i, unit) in population.units.iter().enumerate() {
        assert_eq!((unit.x, unit.y), (2, 3));
        assert_eq!(unit.genome, genomes[i]);
    }
}

#[test]
fn step_advances_every_unit_by_its_own_gene() {
    let mut rng = Rng::from_seed(5);
    let mut population = Population::new(2, 2, 4, 0, &mut rng);
    population.units[0].genome = vec![2, 3];
    population.units[1].genome = vec![3, 3];
    population.reset(2, 2);
    population.step(0);
    assert_eq!((population.units[0].x, population.units[0].y), (3, 2));
    assert_eq!((population.units[1].x, population.units[1].y), (2, 3));
    population.step(1);
    assert_eq!((population.units[0].x, population.units[0].y), (3, 3));
    assert_eq!((population.units[1].x, population.units[1].y), (2, 3));
}
