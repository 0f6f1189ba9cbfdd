//! The mathematical model of the automaton.
//!
//! A generation is a flat sequence of `GRID_SIZE * GRID_SIZE` booleans, the
//! cell in column `x` of row `y` standing at index `y * GRID_SIZE + x`.
//! Positions outside the grid are dead for ever: the grid is surrounded by
//! dead padding and does not wrap around.

use vstd::prelude::*;

verus! {

/// Number of cells along each side of the square grid.
pub const GRID_SIZE: usize = 100;

/// Number of cells in the grid.
pub const CELL_COUNT: usize = GRID_SIZE * GRID_SIZE;

/// Whether column `x` of row `y` lies inside the grid.
pub open spec fn in_bounds(x: int, y: int) -> bool {
    0 <= x < GRID_SIZE && 0 <= y < GRID_SIZE
}

/// The flat index of column `x` of row `y`.
pub open spec fn cell_index(x: int, y: int) -> int {
    y * GRID_SIZE + x
}

/// Whether `cells` has one entry for every cell of the grid.
pub open spec fn is_generation(cells: Seq<bool>) -> bool {
    cells.len() == CELL_COUNT
}

/// Whether the cell in column `x` of row `y` is alive. Every position outside
/// the grid is dead.
pub open spec fn alive(cells: Seq<bool>, x: int, y: int) -> bool
    recommends
        is_generation(cells),
{
    in_bounds(x, y) && cells[cell_index(x, y)]
}

/// One if the cell in column `x` of row `y` is alive, zero if not.
pub open spec fn headcount(cells: Seq<bool>, x: int, y: int) -> nat {
    if alive(cells, x, y) {
        1
    } else {
        0
    }
}

/// The number of live cells among the eight positions that surround column
/// `x` of row `y`.
pub open spec fn live_neighbours(cells: Seq<bool>, x: int, y: int) -> nat {
    headcount(cells, x - 1, y - 1) + headcount(cells, x, y - 1) + headcount(cells, x + 1, y - 1)
        + headcount(cells, x - 1, y) + headcount(cells, x + 1, y)
        + headcount(cells, x - 1, y + 1) + headcount(cells, x, y + 1) + headcount(cells, x + 1, y + 1)
}

/// The rule itself: a cell with exactly three live neighbours lives, a live
/// cell with exactly two stays alive, every other cell is dead.
pub open spec fn lives_on(was_alive: bool, neighbours: nat) -> bool {
    neighbours == 3 || (was_alive && neighbours == 2)
}

/// Whether the cell in column `x` of row `y` is alive in the generation that
/// follows `cells`.
pub open spec fn alive_next(cells: Seq<bool>, x: int, y: int) -> bool {
    in_bounds(x, y) && lives_on(alive(cells, x, y), live_neighbours(cells, x, y))
}

/// The generation that follows `cells`.
pub open spec fn next_generation(cells: Seq<bool>) -> Seq<bool> {
    Seq::new(
        CELL_COUNT as nat,
        |index: int| alive_next(cells, index % (GRID_SIZE as int), index / (GRID_SIZE as int)),
    )
}

/// The generation in which every cell is dead.
pub open spec fn dead_generation() -> Seq<bool> {
    Seq::new(CELL_COUNT as nat, |index: int| false)
}

/// A cell inside the grid has a flat index below `CELL_COUNT`, and the index
/// splits back into the cell's column and row.
pub proof fn lemma_index_of_cell(x: int, y: int)
    requires
        in_bounds(x, y),
    ensures
        0 <= cell_index(x, y) < CELL_COUNT,
        cell_index(x, y) % (GRID_SIZE as int) == x,
        cell_index(x, y) / (GRID_SIZE as int) == y,
{
}

/// A flat index below `CELL_COUNT` splits into a column and a row inside the
/// grid, and they give the index back.
pub proof fn lemma_cell_of_index(index: int)
    requires
        0 <= index < CELL_COUNT,
    ensures
        in_bounds(index % (GRID_SIZE as int), index / (GRID_SIZE as int)),
        cell_index(index % (GRID_SIZE as int), index / (GRID_SIZE as int)) == index,
{
}

/// Reading the following generation cell by cell gives what the rule says of
/// each cell, inside the grid and outside it.
pub proof fn lemma_next_generation_cells(cells: Seq<bool>)
    ensures
        is_generation(next_generation(cells)),
        forall|x: int, y: int|
            alive(next_generation(cells), x, y) == #[trigger] alive_next(cells, x, y),
{
    assert forall|x: int, y: int|
        alive(next_generation(cells), x, y) == #[trigger] alive_next(cells, x, y) by {
        if in_bounds(x, y) {
            lemma_index_of_cell(x, y);
        }
    }
}

/// Whether a column, or a row, is the first or the last of the grid.
pub open spec fn on_side_border(position: int) -> bool {
    position == 0 || position == GRID_SIZE - 1
}

/// Whether `(i, j)` is one of the eight positions that surround `(x, y)`.
pub open spec fn adjacent(x: int, y: int, i: int, j: int) -> bool {
    x - 1 <= i <= x + 1 && y - 1 <= j <= y + 1 && !(i == x && j == y)
}

/// No spontaneous birth: the generation that follows the dead one is dead.
pub proof fn lemma_dead_stays_dead()
    ensures
        next_generation(dead_generation()) == dead_generation(),
{
    let dead = dead_generation();
    assert forall|x: int, y: int| !#[trigger] alive(dead, x, y) by {
        if in_bounds(x, y) {
            lemma_index_of_cell(x, y);
        }
    }
    assert(next_generation(dead) =~= dead);
}

/// Underpopulation: a cell with fewer than two live neighbours, and so a live
/// cell with none, is dead in the following generation.
pub proof fn lemma_underpopulation(cells: Seq<bool>, x: int, y: int)
    requires
        is_generation(cells),
        live_neighbours(cells, x, y) < 2,
    ensures
        !alive(next_generation(cells), x, y),
{
    lemma_next_generation_cells(cells);
}

/// Overpopulation: a cell with four or more live neighbours is dead in the
/// following generation, whether it was alive or not.
pub proof fn lemma_overpopulation(cells: Seq<bool>, x: int, y: int)
    requires
        is_generation(cells),
        live_neighbours(cells, x, y) >= 4,
    ensures
        !alive(next_generation(cells), x, y),
{
    lemma_next_generation_cells(cells);
}

/// A generation with at most one live cell, wherever in the grid that cell
/// stands, is followed by the dead generation.
pub proof fn lemma_lone_cell_dies(cells: Seq<bool>, x: int, y: int)
    requires
        is_generation(cells),
        forall|i: int, j: int| #[trigger] alive(cells, i, j) ==> i == x && j == y,
    ensures
        next_generation(cells) == dead_generation(),
{
    assert forall|index: int| 0 <= index < CELL_COUNT implies !next_generation(cells)[index] by {
        let i = index % (GRID_SIZE as int);
        let j = index / (GRID_SIZE as int);
        assert(live_neighbours(cells, i, j) <= 1);
    }
    assert(next_generation(cells) =~= dead_generation());
}

/// No wraparound: the neighbour count of a position depends on nothing but
/// the cells of the grid that surround it. Two generations that agree on
/// those cells give the same count, whatever else they hold.
pub proof fn lemma_neighbours_are_local(a: Seq<bool>, b: Seq<bool>, x: int, y: int)
    requires
        is_generation(a),
        is_generation(b),
        forall|i: int, j: int|
            in_bounds(i, j) && adjacent(x, y, i, j) ==> #[trigger] alive(a, i, j) == alive(b, i, j),
    ensures
        live_neighbours(a, x, y) == live_neighbours(b, x, y),
{
    assert(alive(a, x - 1, y - 1) == alive(b, x - 1, y - 1));
    assert(alive(a, x, y - 1) == alive(b, x, y - 1));
    assert(alive(a, x + 1, y - 1) == alive(b, x + 1, y - 1));
    assert(alive(a, x - 1, y) == alive(b, x - 1, y));
    assert(alive(a, x + 1, y) == alive(b, x + 1, y));
    assert(alive(a, x - 1, y + 1) == alive(b, x - 1, y + 1));
    assert(alive(a, x, y + 1) == alive(b, x, y + 1));
    assert(alive(a, x + 1, y + 1) == alive(b, x + 1, y + 1));
}

/// A position counts only the neighbours that the grid has: at most three in
/// a corner, at most five on an edge.
pub proof fn lemma_neighbours_on_the_border(cells: Seq<bool>, x: int, y: int)
    requires
        is_generation(cells),
        in_bounds(x, y),
    ensures
        on_side_border(x) && on_side_border(y) ==> live_neighbours(cells, x, y) <= 3,
        on_side_border(x) || on_side_border(y) ==> live_neighbours(cells, x, y) <= 5,
{
}

} // verus!
