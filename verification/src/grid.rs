//! The obstacle map: a square grid of cells that are either free or blocked.
//! The grid is populated once (walls plus the initial unit placements) and is
//! only read thereafter; cells are never cleared.

use vstd::prelude::*;

verus! {

#[verifier::external_type_specification]
#[verifier::external_body]
#[verifier::reject_recursive_types(T)]
pub struct ExArray2D<T>(array2d::Array2D<T>);

/// The cells an `array2d::Array2D<i8>` holds, as a map from (row, column) to
/// the stored value; its domain is the full rows-by-columns rectangle.
pub uninterp spec fn cells_of(a: array2d::Array2D<i8>) -> Map<(int, int), i8>;

/// Relies on array2d::Array2D::filled_with: a num_rows-by-num_columns array
/// holding `element` in every cell.
#[verifier::external_body]
fn array_filled(element: i8, num_rows: usize, num_columns: usize) -> (r: array2d::Array2D<i8>)
    requires
        num_rows * num_columns <= usize::MAX,
    ensures
        forall|x: int, y: int|
            cells_of(r).dom().contains((x, y)) <==> (0 <= x < num_rows && 0 <= y < num_columns),
        forall|x: int, y: int| cells_of(r).dom().contains((x, y)) ==> cells_of(r)[(x, y)] == element,
{
    array2d::Array2D::filled_with(element, num_rows, num_columns)
}

/// Relies on array2d::Array2D::set: writes the cell and returns Ok when the
/// indices are in range, and otherwise returns Err leaving the array unchanged.
#[verifier::external_body]
fn array_set(a: &mut array2d::Array2D<i8>, row: usize, column: usize, element: i8) -> (ok: bool)
    ensures
        cells_of(*old(a)).dom().contains((row as int, column as int)) ==> ok
            && cells_of(*final(a)) == cells_of(*old(a)).insert(
                (row as int, column as int),
                element,
            ),
        !cells_of(*old(a)).dom().contains((row as int, column as int)) ==> !ok
            && cells_of(*final(a)) == cells_of(*old(a)),
{
    a.set(row, column, element).is_ok()
}

/// Relies on array2d::Array2D::get: Some of the cell when the indices are in
/// range, else None.
#[verifier::external_body]
fn array_get(a: &array2d::Array2D<i8>, row: usize, column: usize) -> (r: Option<i8>)
    ensures
        r == if cells_of(*a).dom().contains((row as int, column as int)) {
            Some(cells_of(*a)[(row as int, column as int)])
        } else {
            None::<i8>
        },
{
    match a.get(row, column) {
        Some(v) => Some(*v),
        None => None,
    }
}

/// Square obstacle map. A cell holds 1 when blocked and 0 when free.
pub struct Grid {
    cells: array2d::Array2D<i8>,
    side: usize,
}

impl Grid {
    /// Side length of the square grid.
    pub closed spec fn size(&self) -> int {
        self.side as int
    }

    /// Whether the cell at (x, y) is blocked.
    pub closed spec fn blocked(&self, x: int, y: int) -> bool {
        cells_of(self.cells).dom().contains((x, y)) && cells_of(self.cells)[(x, y)] == 1
    }

    /// The cells cover exactly the square of the stated side length.
    pub closed spec fn wf(&self) -> bool {
        forall|x: int, y: int|
            cells_of(self.cells).dom().contains((x, y)) <==> (0 <= x < self.side as int && 0 <= y
                < self.side as int)
    }

    /// A fresh grid with every cell free.
    pub fn new(side: usize) -> (g: Grid)
        requires
            side * side <= usize::MAX,
        ensures
            g.wf(),
            g.size() == side,
            forall|x: int, y: int| !g.blocked(x, y),
    {
        let cells = array_filled(0, side, side);
        Grid { cells, side }
    }

    /// Marks the cell at (x, y) as blocked; out-of-range coordinates leave the
    /// grid unchanged.
    pub fn mark(&mut self, x: usize, y: usize)
        requires
            old(self).wf(),
        ensures
            final(self).wf(),
            final(self).size() == old(self).size(),
            forall|i: int, j: int|
                final(self).blocked(i, j) <==> (old(self).blocked(i, j) || (x < old(self).size()
                    && y < old(self).size() && i == x && j == y)),
    {
        let _ = array_set(&mut self.cells, x, y, 1);
    }

    /// Looks the cell at (x, y) up: Some(blocked flag) in range, None out of
    /// range.
    pub fn lookup(&self, x: usize, y: usize) -> (r: Option<bool>)
        requires
            self.wf(),
        ensures
            r == if x < self.size() && y < self.size() {
                Some(self.blocked(x as int, y as int))
            } else {
                None::<bool>
            },
    {
        match array_get(&self.cells, x, y) {
            Some(v) => Some(v == 1),
            None => None,
        }
    }
}

} // verus!
