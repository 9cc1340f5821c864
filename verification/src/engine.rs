//! The generation loop that drives the search: reset positions, simulate
//! every genome step, score each unit, then rebuild the population from
//! selected parents by crossover and mutation. After the configured number of
//! generations, the genome of the population's first unit is returned;
//! fitness is not consulted at the return point.

use vstd::prelude::*;

use crate::fitness::fitness;
use crate::population::Population;
use crate::rng::Rng;
use crate::select::{lemma_sum_fits_push, select_index, sum_fits};
use crate::unit::{valid_code, Unit};

verus! {

/// Runs the configured number of generations over an existing population and
/// returns a copy of the genome of the first unit of the final population.
/// With zero generations the population is left exactly as it came, so the
/// result is one of its initial genomes.
pub fn evolve(
    population: &mut Population,
    from_x: i32,
    from_y: i32,
    to_x: i32,
    to_y: i32,
    num_of_evolutions: usize,
    rng: &mut Rng,
) -> (genome: Vec<i32>)
    requires
        old(population).wf(),
        1 <= old(population).units@.len() <= 1_000_000,
        0 <= (from_x as int) < (old(population).map_size as int),
        0 <= (from_y as int) < (old(population).map_size as int),
        0 <= (to_x as int) < (old(population).map_size as int),
        0 <= (to_y as int) < (old(population).map_size as int),
    ensures
        final(population).wf(),
        final(population).units@.len() == old(population).units@.len(),
        final(population).genome_size == old(population).genome_size,
        final(population).map == old(population).map,
        final(population).map_size == old(population).map_size,
        final(population).mut_rate_ppm == old(population).mut_rate_ppm,
        genome@ == final(population).units@[0].genome@,
        genome@.len() == old(population).genome_size as int,
        forall|j: int| 0 <= j < genome@.len() ==> valid_code(#[trigger] genome@[j] as int),
        num_of_evolutions == 0 ==> *final(population) == *old(population),
        num_of_evolutions > 0 ==> forall|i: int|
            0 <= i < final(population).units@.len()
                ==> (#[trigger] final(population).units@[i]).x == 0
                && final(population).units@[i].y == 0,
{
    let mut g: usize = 0;
    while g < num_of_evolutions
        invariant
            population.wf(),
            1 <= population.units@.len() <= 1_000_000,
            population.units@.len() == old(population).units@.len(),
            population.genome_size == old(population).genome_size,
            population.map == old(population).map,
            population.map_size == old(population).map_size,
            population.mut_rate_ppm == old(population).mut_rate_ppm,
            0 <= (from_x as int) < (population.map_size as int),
            0 <= (from_y as int) < (population.map_size as int),
            0 <= (to_x as int) < (population.map_size as int),
            0 <= (to_y as int) < (population.map_size as int),
            g <= num_of_evolutions,
            g == 0 ==> *population == *old(population),
            g > 0 ==> forall|i: int|
                0 <= i < population.units@.len() ==> (#[trigger] population.units@[i]).x == 0
                    && population.units@[i].y == 0,
        decreases num_of_evolutions - g,
    {
        population.reset(from_x, from_y);
        let mut s: usize = 0;
        let steps = population.genome_size;
        while s < steps as usize
            invariant
                population.wf(),
                population.positions_in_bounds(),
                steps == population.genome_size,
                s <= steps as usize,
                1 <= population.units@.len() <= 1_000_000,
                population.units@.len() == old(population).units@.len(),
                population.genome_size == old(population).genome_size,
                population.map == old(population).map,
                population.map_size == old(population).map_size,
                population.mut_rate_ppm == old(population).mut_rate_ppm,
                0 <= (to_x as int) < (population.map_size as int),
                0 <= (to_y as int) < (population.map_size as int),
            decreases steps as int - s as int,
        {
            population.step(s);
            s = s + 1;
        }
        let mut fits: Vec<u64> = Vec::new();
        let mut fits_sum: u64 = 0;
        let mut u: usize = 0;
        while u < population.units.len()
            invariant
                population.wf(),
                population.positions_in_bounds(),
                u <= population.units@.len(),
                1 <= population.units@.len() <= 1_000_000,
                0 <= (to_x as int) < (population.map_size as int),
                0 <= (to_y as int) < (population.map_size as int),
                fits@.len() == u as int,
                fits_sum as int == sum_fits(fits@),
                fits_sum as int <= 100_000 * (u as int),
                fits_sum as int >= u as int,
            decreases population.units@.len() - u,
        {
            let ux = population.units[u].x;
            let uy = population.units[u].y;
            let fit = fitness(ux, uy, to_x, to_y);
            let ghost pre = fits@;
            fits.push(fit);
            proof {
                lemma_sum_fits_push(pre, fit);
            }
            fits_sum = fits_sum + fit;
            u = u + 1;
        }
        let mut new_units: Vec<Unit> = Vec::new();
        let pop_len = population.units.len();
        let mut c: usize = 0;
        while c < pop_len
            invariant
                population.wf(),
                pop_len == population.units@.len(),
                1 <= population.units@.len() <= 1_000_000,
                population.units@.len() == old(population).units@.len(),
                population.genome_size == old(population).genome_size,
                population.map_size == old(population).map_size,
                fits@.len() == population.units@.len(),
                fits_sum as int == sum_fits(fits@),
                fits_sum >= 1,
                c <= pop_len,
                new_units@.len() == c as int,
                forall|k: int|
                    0 <= k < c as int ==> (#[trigger] new_units@[k]).genome@.len()
                        == population.genome_size as int,
                forall|k: int, j: int|
                    0 <= k < c as int && 0 <= j < new_units@[k].genome@.len() ==> valid_code(
                        #[trigger] new_units@[k].genome@[j] as int,
                    ),
                forall|k: int|
                    0 <= k < c as int ==> (#[trigger] new_units@[k]).x == 0 && new_units@[k].y
                        == 0,
            decreases pop_len - c,
        {
            let r1 = rng.next_below(fits_sum);
            let r2 = rng.next_below(fits_sum);
            let i1 = select_index(&fits, r1);
            let i2 = select_index(&fits, r2);
            let mut child = population.crossover(
                &population.units[i1],
                &population.units[i2],
                rng,
            );
            population.mutate(&mut child, rng);
            new_units.push(child);
            c = c + 1;
        }
        population.units = new_units;
        g = g + 1;
    }
    let mut genome: Vec<i32> = Vec::new();
    let mut k: usize = 0;
    let first = &population.units[0];
    while k < first.genome.len()
        invariant
            k <= first.genome@.len(),
            genome@.len() == k as int,
            forall|j: int| 0 <= j < k as int ==> genome@[j] == first.genome@[j],
        decreases first.genome@.len() - k,
    {
        genome.push(first.genome[k]);
        k = k + 1;
    }
    proof {
        assert(genome@ =~= population.units@[0].genome@);
    }
    genome
}

/// The single entry point of the search. Builds the initial population, marks
/// the walls on the grid, runs the generation loop, and returns the genome of
/// the first unit of the final population: `genome_size` move codes, each in
/// the range west, north, east, south.
pub fn find_path(
    from_x: i32,
    from_y: i32,
    to_x: i32,
    to_y: i32,
    genome_size: i32,
    map_size: usize,
    population_size: i32,
    num_of_evolutions: usize,
    mut_rate_ppm: u32,
    walls_x: Vec<usize>,
    walls_y: Vec<usize>,
    rng: &mut Rng,
) -> (genome: Vec<i32>)
    requires
        1 <= genome_size,
        1 <= map_size <= 10000,
        1 <= population_size <= 1_000_000,
        mut_rate_ppm <= 1_000_000,
        0 <= (from_x as int) < (map_size as int),
        0 <= (from_y as int) < (map_size as int),
        0 <= (to_x as int) < (map_size as int),
        0 <= (to_y as int) < (map_size as int),
        walls_x@.len() == walls_y@.len(),
        forall|i: int|
            0 <= i < walls_x@.len() ==> (#[trigger] walls_x@[i]) < map_size && walls_y@[i]
                < map_size,
    ensures
        genome@.len() == genome_size as int,
        forall|j: int| 0 <= j < genome@.len() ==> valid_code(#[trigger] genome@[j] as int),
{
    let mut population = Population::new(
        population_size,
        genome_size,
        map_size,
        mut_rate_ppm,
        rng,
    );
    let mut w: usize = 0;
    while w < walls_x.len()
        invariant
            population.wf(),
            1 <= population.units@.len() <= 1_000_000,
            population.genome_size == genome_size,
            population.map_size == map_size,
            w <= walls_x@.len(),
            walls_x@.len() == walls_y@.len(),
        decreases walls_x@.len() - w,
    {
        population.map.mark(walls_x[w], walls_y[w]);
        w = w + 1;
    }
    evolve(&mut population, from_x, from_y, to_x, to_y, num_of_evolutions, rng)
}

} // verus!
