use pathfinder::engine::{evolve, find_path};
use pathfinder::grid::Grid;
use pathfinder::population::Population;
use pathfinder::rng::Rng;
use pathfinder::unit::step_unit;

/// Rebuilds the grid the engine runs on: the initial unit placements down the
/// first column, then the walls; then replays a genome from the start cell,
/// checking the path stays in bounds and never enters a blocked cell.
fn replay(
    genome: &Vec<i32>,
    map_size: usize,
    population_size: i32,
    walls: &[(usize, usize)],
    from: (i32, i32),
) -> (i32, i32) {
    let mut grid = Grid::new(map_size);
    let mut i: usize = 0;
    while (i as i32) < population_size {
        grid.mark(0, i);
        i += 1;
    }
    for &(wx, wy) in walls {
        grid.mark(wx, wy);
    }
    let (mut x, mut y) = from;
    for &code in genome.iter() {
        let (nx, ny) = step_unit(&grid, map_size, x, y, code);
        assert!(0 <= nx && (nx as usize) < map_size);
        assert!(0 <= ny && (ny as usize) < map_size);
        assert_eq!(grid.lookup(nx as usize, ny as usize), Some(false));
        x = nx;
        y = ny;
    }
    (x, y)
}

#[test]
fn find_path_returns_valid_genome() {
    let mut rng = Rng::from_seed(7);
    let genome = find_path(0, 0, 4, 4, 8, 5, 20, 5, 50_000, vec![], vec![], &mut rng);
    assert_eq!(genome.len(), 8);
    for &code in genome.iter() {
        assert!((0..=3).contains(&code));
    }
}

#[test]
fn identical_seeds_give_identical_genomes() {
    let mut rng1 = Rng::from_seed(123);
    let mut rng2 = Rng::from_seed(123);
    let g1 = find_path(0, 0, 4, 4, 8, 5, 30, 20, 50_000, vec![2], vec![2], &mut rng1);
    let g2 = find_path(0, 0, 4, 4, 8, 5, 30, 20, 50_000, vec![2], vec![2], &mut rng2);
    assert_eq!(g1, g2);
}

#[test]
fn zero_generations_returns_an_initial_genome() {
    let mut rng = Rng::from_seed(42);
    let mut population = Population::new(10, 6, 5, 50_000, &mut rng);
    let initial_first_genome = population.units[0].genome.clone();
    let genome = evolve(&mut population, 0, 0, 4, 4, 0, &mut rng);
    assert_eq!(genome, initial_first_genome);
    assert_eq!(population.units[0].genome, initial_first_genome);
}

#[test]
fn generations_replace_units_with_fresh_offspring() {
    let mut rng = Rng::from_seed(9);
    let mut population = Population::new(8, 5, 5, 50_000, &mut rng);
    let genome = evolve(&mut population, 0, 0, 4, 4, 3, &mut rng);
    assert_eq!(genome, population.units[0].genome);
    for unit in population.units.iter() {
        assert_eq!((unit.x, unit.y), (0, 0));
        assert_eq!(unit.genome.len(), 5);
    }
}

#[test]
fn open_map_search_converges_near_target() {
    // A 5x5 map, start (0, 0), target (4, 4), no walls. Across seeded trials
    // the returned genome's simulated endpoint should usually land within
    // Euclidean distance 2 of the target.
    let mut near = 0;
    for seed in 0..5u64 {
        let mut rng = Rng::from_seed(seed);
        let genome = find_path(0, 0, 4, 4, 8, 5, 50, 50, 50_000, vec![], vec![], &mut rng);
        assert_eq!(genome.len(), 8);
        let (x, y) = replay(&genome, 5, 50, &[], (0, 0));
        let d2 = (x - 4) * (x - 4) + (y - 4) * (y - 4);
        if d2 <= 4 {
            near += 1;
        }
    }
    assert!(near >= 3, "only {near} of 5 seeded runs ended near the target");
}

#[test]
fn walled_map_path_avoids_blocked_cell() {
    // A 3x3 map, start (0, 0), target (2, 0), one wall at (1, 0): the
    // simulated path must never occupy the blocked cell, though the target
    // may stay out of reach.
    for seed in 0..5u64 {
        let mut rng = Rng::from_seed(seed);
        let genome = find_path(0, 0, 2, 0, 4, 3, 10, 10, 50_000, vec![1], vec![0], &mut rng);
        assert_eq!(genome.len(), 4);
        let mut grid = Grid::new(3);
        let mut i: usize = 0;
        while i < 10 {
            grid.mark(0, i);
            i += 1;
        }
        grid.mark(1, 0);
        let (mut x, mut y) = (0i32, 0i32);
        for &code in genome.iter() {
            let (nx, ny) = step_unit(&grid, 3, x, y, code);
            assert!(!(nx == 1 && ny == 0), "path entered the walled cell");
            x = nx;
            y = ny;
        }
    }
}
