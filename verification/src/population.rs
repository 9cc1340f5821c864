//! The population: the full set of units evaluated together in one
//! generation, the obstacle map they navigate, and the per-generation
//! operators that act on them (position reset, one simulation step,
//! crossover, mutation).

use vstd::prelude::*;

use crate::grid::Grid;
use crate::rng::Rng;
use crate::unit::{step_pos, step_unit, valid_code, Unit};

verus! {

/// The full set of units of one generation, with the grid they run on.
/// The mutation rate is kept in parts per million of one.
pub struct Population {
    pub units: Vec<Unit>,
    pub genome_size: i32,
    pub map: Grid,
    pub map_size: usize,
    pub mut_rate_ppm: u32,
}

impl Population {
    /// Every genome has the configured length and holds only valid move
    /// codes, and the configuration itself is in range.
    pub open spec fn wf(&self) -> bool {
        &&& self.map.wf()
        &&& self.map.size() == self.map_size as int
        &&& 1 <= self.map_size <= 10000
        &&& 1 <= self.genome_size
        &&& self.mut_rate_ppm <= 1_000_000
        &&& forall|i: int|
            0 <= i < self.units@.len() ==> (#[trigger] self.units@[i]).genome@.len()
                == self.genome_size as int
        &&& forall|i: int, j: int|
            0 <= i < self.units@.len() && 0 <= j < self.units@[i].genome@.len() ==> valid_code(
                #[trigger] self.units@[i].genome@[j] as int,
            )
    }

    /// Every unit's position lies inside the grid.
    pub open spec fn positions_in_bounds(&self) -> bool {
        forall|i: int|
            0 <= i < self.units@.len() ==> 0 <= ((#[trigger] self.units@[i]).x as int)
                < (self.map_size as int) && 0 <= (self.units@[i].y as int) < (self.map_size as int)
    }

    /// Builds the initial population: random genomes, units placed down the
    /// first column of the grid, and each placement cell that lies inside the
    /// grid marked as blocked.
    pub fn new(
        population_size: i32,
        genome_size: i32,
        map_size: usize,
        mut_rate_ppm: u32,
        rng: &mut Rng,
    ) -> (p: Population)
        requires
            1 <= population_size,
            1 <= genome_size,
            1 <= map_size <= 10000,
            mut_rate_ppm <= 1_000_000,
        ensures
            p.wf(),
            p.units@.len() == population_size as int,
            p.genome_size == genome_size,
            p.map_size == map_size,
            p.mut_rate_ppm == mut_rate_ppm,
            forall|i: int|
                0 <= i < population_size as int ==> (#[trigger] p.units@[i]).x == 0
                    && p.units@[i].y as int == i,
            forall|x: int, y: int|
                p.map.blocked(x, y) <==> (x == 0 && 0 <= y < population_size as int && y
                    < map_size as int),
    {
        let mut units: Vec<Unit> = Vec::new();
        let mut i: i32 = 0;
        while i < population_size
            invariant
                0 <= i <= population_size,
                1 <= genome_size,
                units@.len() == i as int,
                forall|k: int|
                    0 <= k < i as int ==> (#[trigger] units@[k]).genome@.len()
                        == genome_size as int,
                forall|k: int, j: int|
                    0 <= k < i as int && 0 <= j < units@[k].genome@.len() ==> valid_code(
                        #[trigger] units@[k].genome@[j] as int,
                    ),
                forall|k: int| 0 <= k < i as int ==> (#[trigger] units@[k]).x == 0,
                forall|k: int| 0 <= k < i as int ==> (#[trigger] units@[k]).y == 0,
            decreases population_size - i,
        {
            let mut genome: Vec<i32> = Vec::new();
            let mut j: i32 = 0;
            while j < genome_size
                invariant
                    0 <= j <= genome_size,
                    genome@.len() == j as int,
                    forall|k: int|
                        0 <= k < j as int ==> valid_code(#[trigger] genome@[k] as int),
                decreases genome_size - j,
            {
                let code = rng.next_below(4);
                genome.push(code as i32);
                j = j + 1;
            }
            units.push(Unit { x: 0, y: 0, genome });
            i = i + 1;
        }
        assert(map_size * map_size <= usize::MAX) by (nonlinear_arith)
            requires
                map_size <= 10000,
        ;
        let mut map = Grid::new(map_size);
        let mut k: usize = 0;
        while k < units.len()
            invariant
                k <= units@.len(),
                units@.len() == population_size as int,
                1 <= population_size,
                map.wf(),
                map.size() == map_size as int,
                forall|kk: int|
                    0 <= kk < units@.len() ==> (#[trigger] units@[kk]).genome@.len()
                        == genome_size as int,
                forall|kk: int, j: int|
                    0 <= kk < units@.len() && 0 <= j < units@[kk].genome@.len() ==> valid_code(
                        #[trigger] units@[kk].genome@[j] as int,
                    ),
                forall|kk: int|
                    0 <= kk < k as int ==> (#[trigger] units@[kk]).x == 0 && units@[kk].y as int
                        == kk,
                forall|kk: int|
                    k as int <= kk < units@.len() ==> (#[trigger] units@[kk]).x == 0
                        && units@[kk].y == 0,
                forall|x: int, y: int|
                    map.blocked(x, y) <==> (x == 0 && 0 <= y < k as int && y < map_size as int),
            decreases units@.len() - k,
        {
            units[k].x = 0;
            units[k].y = k as i32;
            map.mark(0, k);
            k = k + 1;
        }
        Population { units, genome_size, map, map_size, mut_rate_ppm }
    }

    /// Puts every unit back on the start cell; genomes are untouched.
    pub fn reset(&mut self, x: i32, y: i32)
        ensures
            final(self).units@.len() == old(self).units@.len(),
            final(self).genome_size == old(self).genome_size,
            final(self).map == old(self).map,
            final(self).map_size == old(self).map_size,
            final(self).mut_rate_ppm == old(self).mut_rate_ppm,
            forall|i: int|
                0 <= i < old(self).units@.len() ==> (#[trigger] final(self).units@[i]).x == x
                    && final(self).units@[i].y == y && final(self).units@[i].genome@ == old(
                    self,
                ).units@[i].genome@,
    {
        let mut i: usize = 0;
        while i < self.units.len()
            invariant
                i <= self.units@.len(),
                self.units@.len() == old(self).units@.len(),
                self.genome_size == old(self).genome_size,
                self.map == old(self).map,
                self.map_size == old(self).map_size,
                self.mut_rate_ppm == old(self).mut_rate_ppm,
                forall|k: int|
                    0 <= k < i as int ==> (#[trigger] self.units@[k]).x == x && self.units@[k].y
                        == y,
                forall|k: int|
                    0 <= k < self.units@.len() ==> (#[trigger] self.units@[k]).genome@ == old(
                        self,
                    ).units@[k].genome@,
                forall|k: int|
                    i as int <= k < self.units@.len() ==> (#[trigger] self.units@[k]) == old(
                        self,
                    ).units@[k],
            decreases self.units@.len() - i,
        {
            self.units[i].x = x;
            self.units[i].y = y;
            i = i + 1;
        }
    }

    /// Runs simulation step `num` for every unit: each reads move code `num`
    /// of its genome and moves to the candidate cell unless that cell lies
    /// outside the grid or is blocked, in which case it stands still.
    pub fn step(&mut self, num: usize)
        requires
            old(self).wf(),
            (num as int) < old(self).genome_size as int,
            old(self).positions_in_bounds(),
        ensures
            final(self).wf(),
            final(self).positions_in_bounds(),
            final(self).units@.len() == old(self).units@.len(),
            final(self).genome_size == old(self).genome_size,
            final(self).map == old(self).map,
            final(self).map_size == old(self).map_size,
            final(self).mut_rate_ppm == old(self).mut_rate_ppm,
            forall|i: int|
                0 <= i < old(self).units@.len() ==> (#[trigger] final(self).units@[i]).genome@
                    == old(self).units@[i].genome@,
            forall|i: int|
                0 <= i < old(self).units@.len() ==> ((#[trigger] final(self).units@[i]).x as int,
                final(self).units@[i].y as int) == step_pos(
                    old(self).map,
                    old(self).map_size as int,
                    old(self).units@[i].x as int,
                    old(self).units@[i].y as int,
                    old(self).units@[i].genome@[num as int] as int,
                ),
    {
        let mut i: usize = 0;
        while i < self.units.len()
            invariant
                old(self).wf(),
                old(self).positions_in_bounds(),
                (num as int) < old(self).genome_size as int,
                i <= self.units@.len(),
                self.units@.len() == old(self).units@.len(),
                self.genome_size == old(self).genome_size,
                self.map == old(self).map,
                self.map_size == old(self).map_size,
                self.mut_rate_ppm == old(self).mut_rate_ppm,
                forall|k: int|
                    0 <= k < self.units@.len() ==> (#[trigger] self.units@[k]).genome@ == old(
                        self,
                    ).units@[k].genome@,
                forall|k: int|
                    i as int <= k < self.units@.len() ==> (#[trigger] self.units@[k]).x == old(
                        self,
                    ).units@[k].x && self.units@[k].y == old(self).units@[k].y,
                forall|k: int|
                    0 <= k < i as int ==> ((#[trigger] self.units@[k]).x as int,
                    self.units@[k].y as int) == step_pos(
                        old(self).map,
                        old(self).map_size as int,
                        old(self).units@[k].x as int,
                        old(self).units@[k].y as int,
                        old(self).units@[k].genome@[num as int] as int,
                    ),
                forall|k: int|
                    0 <= k < i as int ==> 0 <= ((#[trigger] self.units@[k]).x as int)
                        < (self.map_size as int) && 0 <= (self.units@[k].y as int)
                        < (self.map_size as int),
            decreases self.units@.len() - i,
        {
            let code = self.units[i].genome[num];
            let x = self.units[i].x;
            let y = self.units[i].y;
            let (nx, ny) = step_unit(&self.map, self.map_size, x, y, code);
            self.units[i].x = nx;
            self.units[i].y = ny;
            i = i + 1;
        }
    }
}

/// Crossover at a given split point: the offspring genome is parent A's genes
/// before `mid` followed by parent B's genes from `mid` on; the offspring
/// starts at the origin.
pub fn crossover_at(parent_a: &Unit, parent_b: &Unit, mid: usize) -> (child: Unit)
    requires
        parent_a.genome@.len() == parent_b.genome@.len(),
        (mid as int) < parent_a.genome@.len(),
    ensures
        child.genome@.len() == parent_a.genome@.len(),
        child.genome@ == parent_a.genome@.take(mid as int) + parent_b.genome@.skip(mid as int),
        forall|k: int| 0 <= k < mid as int ==> child.genome@[k] == parent_a.genome@[k],
        forall|k: int|
            mid as int <= k < parent_b.genome@.len() ==> child.genome@[k] == parent_b.genome@[k],
        child.x == 0,
        child.y == 0,
{
    let mut genome: Vec<i32> = Vec::new();
    let mut i: usize = 0;
    while i < mid
        invariant
            i <= mid,
            (mid as int) < parent_a.genome@.len(),
            genome@.len() == i as int,
            forall|k: int| 0 <= k < i as int ==> genome@[k] == parent_a.genome@[k],
        decreases mid - i,
    {
        genome.push(parent_a.genome[i]);
        i = i + 1;
    }
    let mut j: usize = mid;
    while j < parent_b.genome.len()
        invariant
            parent_a.genome@.len() == parent_b.genome@.len(),
            mid as int <= j as int <= parent_b.genome@.len(),
            genome@.len() == j as int,
            forall|k: int| 0 <= k < mid as int ==> genome@[k] == parent_a.genome@[k],
            forall|k: int| mid as int <= k < j as int ==> genome@[k] == parent_b.genome@[k],
        decreases parent_b.genome@.len() - j,
    {
        genome.push(parent_b.genome[j]);
        j = j + 1;
    }
    proof {
        assert(genome@ =~= parent_a.genome@.take(mid as int) + parent_b.genome@.skip(mid as int));
    }
    Unit { x: 0, y: 0, genome }
}

impl Population {
    /// Produces one offspring from two parents: a split point is drawn below
    /// the genome length and the genomes are recombined there.
    pub fn crossover(&self, parent_a: &Unit, parent_b: &Unit, rng: &mut Rng) -> (child: Unit)
        requires
            1 <= self.genome_size,
            parent_a.genome@.len() == self.genome_size as int,
            parent_b.genome@.len() == self.genome_size as int,
            forall|k: int|
                0 <= k < parent_a.genome@.len() ==> valid_code(
                    #[trigger] parent_a.genome@[k] as int,
                ),
            forall|k: int|
                0 <= k < parent_b.genome@.len() ==> valid_code(
                    #[trigger] parent_b.genome@[k] as int,
                ),
        ensures
            child.x == 0,
            child.y == 0,
            child.genome@.len() == self.genome_size as int,
            forall|k: int|
                0 <= k < child.genome@.len() ==> valid_code(#[trigger] child.genome@[k] as int),
            exists|mid: int|
                0 <= mid < self.genome_size as int && child.genome@ == parent_a.genome@.take(mid)
                    + parent_b.genome@.skip(mid),
    {
        let mid = rng.next_below(self.genome_size as u64) as usize;
        let child = crossover_at(parent_a, parent_b, mid);
        proof {
            assert(child.genome@ == parent_a.genome@.take(mid as int) + parent_b.genome@.skip(
                mid as int,
            ));
            assert forall|k: int| 0 <= k < child.genome@.len() implies valid_code(
                #[trigger] child.genome@[k] as int,
            ) by {
                if k < mid as int {
                    assert(child.genome@[k] == parent_a.genome@[k]);
                } else {
                    assert(child.genome@[k] == parent_b.genome@[k]);
                }
            }
        }
        child
    }

    /// Mutates an offspring in place: each gene is independently replaced by
    /// a random move code with probability mut_rate_ppm in a million; with a
    /// zero rate the genome is returned exactly as it came.
    pub fn mutate(&self, unit: &mut Unit, rng: &mut Rng)
        requires
            self.mut_rate_ppm <= 1_000_000,
        ensures
            final(unit).x == old(unit).x,
            final(unit).y == old(unit).y,
            final(unit).genome@.len() == old(unit).genome@.len(),
            forall|k: int|
                0 <= k < old(unit).genome@.len() ==> ((#[trigger] final(unit).genome@[k]) == old(
                    unit,
                ).genome@[k] || valid_code(final(unit).genome@[k] as int)),
            self.mut_rate_ppm == 0 ==> final(unit).genome@ == old(unit).genome@,
    {
        let mut i: usize = 0;
        while i < unit.genome.len()
            invariant
                i <= unit.genome@.len(),
                self.mut_rate_ppm <= 1_000_000,
                unit.x == old(unit).x,
                unit.y == old(unit).y,
                unit.genome@.len() == old(unit).genome@.len(),
                forall|k: int|
                    0 <= k < i as int ==> ((#[trigger] unit.genome@[k]) == old(unit).genome@[k]
                        || valid_code(unit.genome@[k] as int)),
                forall|k: int|
                    i as int <= k < unit.genome@.len() ==> (#[trigger] unit.genome@[k]) == old(
                        unit,
                    ).genome@[k],
                self.mut_rate_ppm == 0 ==> forall|k: int|
                    0 <= k < unit.genome@.len() ==> (#[trigger] unit.genome@[k]) == old(
                        unit,
                    ).genome@[k],
            decreases unit.genome@.len() - i,
        {
            let roll = rng.next_below(1_000_000);
            if (roll as u32) < self.mut_rate_ppm {
                let code = rng.next_below(4);
                unit.genome[i] = code as i32;
            }
            i = i + 1;
        }
        proof {
            if self.mut_rate_ppm == 0 {
                assert(unit.genome@ =~= old(unit).genome@);
            }
        }
    }
}

} // verus!
