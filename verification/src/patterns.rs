//! Two classic shapes and what the rule does to them: the block, which never
//! changes, and the blinker, which turns between a row and a column of three.
//!
//! A shape is a predicate on positions. Its generation holds a live cell
//! wherever the shape holds inside the grid.

use vstd::prelude::*;
use crate::rules::{
    alive, alive_next, in_bounds, is_generation, lemma_index_of_cell, lemma_next_generation_cells,
    lives_on, next_generation, CELL_COUNT, GRID_SIZE,
};

verus! {

/// The generation whose live cells are the cells of the grid on which `shape`
/// holds.
pub open spec fn generation_of(shape: spec_fn(int, int) -> bool) -> Seq<bool> {
    Seq::new(
        CELL_COUNT as nat,
        |index: int| shape(index % (GRID_SIZE as int), index / (GRID_SIZE as int)),
    )
}

/// Whether `shape` has a live cell in column `i` of row `j` of the grid.
pub open spec fn covers(shape: spec_fn(int, int) -> bool, i: int, j: int) -> bool {
    in_bounds(i, j) && shape(i, j)
}

/// One if `shape` has a live cell in column `i` of row `j`, zero if not.
pub open spec fn cover_count(shape: spec_fn(int, int) -> bool, i: int, j: int) -> nat {
    if covers(shape, i, j) {
        1
    } else {
        0
    }
}

/// The number of live cells that `shape` has around column `i` of row `j`.
pub open spec fn covered_neighbours(shape: spec_fn(int, int) -> bool, i: int, j: int) -> nat {
    cover_count(shape, i - 1, j - 1) + cover_count(shape, i, j - 1) + cover_count(shape, i + 1, j - 1)
        + cover_count(shape, i - 1, j) + cover_count(shape, i + 1, j)
        + cover_count(shape, i - 1, j + 1) + cover_count(shape, i, j + 1) + cover_count(shape, i + 1, j + 1)
}

/// A square of two by two whose top left corner is column `x` of row `y`.
pub open spec fn block_shape(x: int, y: int) -> spec_fn(int, int) -> bool {
    |i: int, j: int| x <= i <= x + 1 && y <= j <= y + 1
}

/// Three positions side by side, the middle one in column `x` of row `y`.
pub open spec fn row_shape(x: int, y: int) -> spec_fn(int, int) -> bool {
    |i: int, j: int| x - 1 <= i <= x + 1 && j == y
}

/// Three positions one above the other, the middle one in column `x` of row
/// `y`.
pub open spec fn column_shape(x: int, y: int) -> spec_fn(int, int) -> bool {
    |i: int, j: int| i == x && y - 1 <= j <= y + 1
}

/// The block: a square of two by two live cells whose top left cell stands
/// in column `x` of row `y`.
pub open spec fn block(x: int, y: int) -> Seq<bool> {
    generation_of(block_shape(x, y))
}

/// The blinker lying down: three live cells side by side, the middle one in
/// column `x` of row `y`.
pub open spec fn blinker_row(x: int, y: int) -> Seq<bool> {
    generation_of(row_shape(x, y))
}

/// The blinker standing up: three live cells one above the other, the middle
/// one in column `x` of row `y`.
pub open spec fn blinker_column(x: int, y: int) -> Seq<bool> {
    generation_of(column_shape(x, y))
}

/// A cell of `generation_of(shape)` is alive exactly where `shape` has a live
/// cell.
pub proof fn lemma_generation_of(shape: spec_fn(int, int) -> bool)
    ensures
        is_generation(generation_of(shape)),
        forall|i: int, j: int| #[trigger] alive(generation_of(shape), i, j) == covers(shape, i, j),
{
    assert forall|i: int, j: int| #[trigger]
        alive(generation_of(shape), i, j) == covers(shape, i, j) by {
        if in_bounds(i, j) {
            lemma_index_of_cell(i, j);
        }
    }
}

/// Two generations with the same live cells are the same generation.
pub proof fn lemma_same_cells(a: Seq<bool>, b: Seq<bool>)
    requires
        is_generation(a),
        is_generation(b),
        forall|i: int, j: int| in_bounds(i, j) ==> #[trigger] alive(a, i, j) == alive(b, i, j),
    ensures
        a == b,
{
    assert forall|index: int| 0 <= index < CELL_COUNT implies a[index] == b[index] by {
        let i = index % (GRID_SIZE as int);
        let j = index / (GRID_SIZE as int);
        assert(alive(a, i, j) == alive(b, i, j));
    }
    assert(a =~= b);
}

/// The generation of `before` is followed by the generation of `after` when,
/// in every cell of the grid, `after` holds exactly where the rule lets a
/// cell of `before` live.
pub proof fn lemma_shape_follows(
    before: spec_fn(int, int) -> bool,
    after: spec_fn(int, int) -> bool,
)
    requires
        forall|i: int, j: int|
            in_bounds(i, j) ==> #[trigger] after(i, j) == lives_on(
                before(i, j),
                covered_neighbours(before, i, j),
            ),
    ensures
        next_generation(generation_of(before)) == generation_of(after),
{
    let cells = generation_of(before);
    lemma_generation_of(before);
    lemma_generation_of(after);
    lemma_next_generation_cells(cells);
    assert forall|i: int, j: int| in_bounds(i, j) implies #[trigger] alive(
        next_generation(cells),
        i,
        j,
    ) == alive(generation_of(after), i, j) by {
        assert(alive_next(cells, i, j) == lives_on(
            before(i, j),
            covered_neighbours(before, i, j),
        ));
        assert(after(i, j) == lives_on(before(i, j), covered_neighbours(before, i, j)));
    }
    lemma_same_cells(next_generation(cells), generation_of(after));
}

/// A block that lies inside the grid is stable: the following generation is
/// the same block.
pub proof fn lemma_block_is_stable(x: int, y: int)
    requires
        in_bounds(x, y),
        in_bounds(x + 1, y + 1),
    ensures
        next_generation(block(x, y)) == block(x, y),
{
    let shape = block_shape(x, y);
    assert forall|i: int, j: int| in_bounds(i, j) implies #[trigger] shape(i, j) == lives_on(
        shape(i, j),
        covered_neighbours(shape, i, j),
    ) by {}
    lemma_shape_follows(shape, shape);
}

/// A blinker lying down, with a row of the grid above it and one below it,
/// stands up in the following generation.
pub proof fn lemma_blinker_row_stands_up(x: int, y: int)
    requires
        in_bounds(x - 1, y - 1),
        in_bounds(x + 1, y + 1),
    ensures
        next_generation(blinker_row(x, y)) == blinker_column(x, y),
{
    let before = row_shape(x, y);
    let after = column_shape(x, y);
    assert forall|i: int, j: int| in_bounds(i, j) implies #[trigger] after(i, j) == lives_on(
        before(i, j),
        covered_neighbours(before, i, j),
    ) by {}
    lemma_shape_follows(before, after);
}

/// A blinker standing up, with a column of the grid to its left and one to
/// its right, lies down in the following generation.
pub proof fn lemma_blinker_column_lies_down(x: int, y: int)
    requires
        in_bounds(x - 1, y - 1),
        in_bounds(x + 1, y + 1),
    ensures
        next_generation(blinker_column(x, y)) == blinker_row(x, y),
{
    let before = column_shape(x, y);
    let after = row_shape(x, y);
    assert forall|i: int, j: int| in_bounds(i, j) implies #[trigger] after(i, j) == lives_on(
        before(i, j),
        covered_neighbours(before, i, j),
    ) by {}
    lemma_shape_follows(before, after);
}

/// A blinker whose middle cell does not touch the border of the grid has
/// period two: after two generations it is back where it began, lying down
/// or standing up.
pub proof fn lemma_blinker_has_period_two(x: int, y: int)
    requires
        in_bounds(x - 1, y - 1),
        in_bounds(x + 1, y + 1),
    ensures
        next_generation(next_generation(blinker_row(x, y))) == blinker_row(x, y),
        next_generation(next_generation(blinker_column(x, y))) == blinker_column(x, y),
{
    lemma_blinker_row_stands_up(x, y);
    lemma_blinker_column_lies_down(x, y);
}

} // verus!
