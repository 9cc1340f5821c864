//! A unit is one candidate solution: a fixed-length sequence of move codes
//! (its genome) plus its current simulated position on the grid.

use vstd::prelude::*;

use crate::grid::Grid;

verus! {

/// One candidate solution: a genome of move codes and a simulated position.
pub struct Unit {
    pub x: i32,
    pub y: i32,
    pub genome: Vec<i32>,
}

/// The move codes are west, north, east, south.
pub open spec fn valid_code(c: int) -> bool {
    0 <= c <= 3
}

/// Horizontal displacement of a move code: west is -1, east is +1.
pub open spec fn move_dx(c: int) -> int {
    if c == 0 {
        -1
    } else if c == 2 {
        1
    } else {
        0
    }
}

/// Vertical displacement of a move code: north is -1, south is +1.
pub open spec fn move_dy(c: int) -> int {
    if c == 1 {
        -1
    } else if c == 3 {
        1
    } else {
        0
    }
}

/// Where one step from (x, y) under move code `c` lands on a grid of side
/// `n`: the candidate cell when it is inside the grid and free, and the old
/// position when the candidate lies outside the grid or is blocked.
pub open spec fn step_pos(g: Grid, n: int, x: int, y: int, c: int) -> (int, int) {
    let nx = x + move_dx(c);
    let ny = y + move_dy(c);
    if nx < 0 || nx >= n || ny < 0 || ny >= n {
        (x, y)
    } else if g.blocked(nx, ny) {
        (x, y)
    } else {
        (nx, ny)
    }
}

/// A move whose candidate cell lies outside the grid leaves the position
/// unchanged.
pub proof fn lemma_exit_keeps_position(g: Grid, n: int, x: int, y: int, c: int)
    requires
        !(0 <= x + move_dx(c) < n) || !(0 <= y + move_dy(c) < n),
    ensures
        step_pos(g, n, x, y, c) == (x, y),
{
}

/// A move whose candidate cell is blocked leaves the position unchanged.
pub proof fn lemma_blocked_keeps_position(g: Grid, n: int, x: int, y: int, c: int)
    requires
        g.blocked(x + move_dx(c), y + move_dy(c)),
    ensures
        step_pos(g, n, x, y, c) == (x, y),
{
}

/// Executes one simulation step for a single unit position: the result is
/// exactly `step_pos`, and a position inside the grid stays inside it.
pub fn step_unit(g: &Grid, map_size: usize, x: i32, y: i32, code: i32) -> (r: (i32, i32))
    requires
        g.wf(),
        g.size() == map_size,
        map_size <= 0x7fff_ffff,
        valid_code(code as int),
        0 <= x < map_size,
        0 <= y < map_size,
    ensures
        (r.0 as int, r.1 as int) == step_pos(*g, map_size as int, x as int, y as int, code as int),
        0 <= r.0 < map_size,
        0 <= r.1 < map_size,
{
    let (vx, vy): (i32, i32) = match code {
        0 => (-1, 0),
        1 => (0, -1),
        2 => (1, 0),
        _ => (0, 1),
    };
    let nx = x + vx;
    let ny = y + vy;
    if nx < 0 || ny < 0 || nx as usize >= map_size || ny as usize >= map_size {
        return (x, y);
    }
    match g.lookup(nx as usize, ny as usize) {
        Some(true) => (x, y),
        Some(false) => (nx, ny),
        None => (x, y),
    }
}

} // verus!
