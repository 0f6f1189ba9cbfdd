//! Between cells and physical pixels.
//!
//! The window shows every cell as a square of `CELL_SIZE` by `CELL_SIZE`
//! pixels of one colour, white for a live cell and black for a dead one.
//! Pixels are packed RGB values in a flat buffer, row after row, `WIDTH` to
//! a row. The pointer is given in pixels and edits the cell under it.

use vstd::prelude::*;
use crate::grid::Grid;
use crate::rules::{alive, cell_index, in_bounds, is_generation, GRID_SIZE};

verus! {

/// Number of pixels along each side of a cell.
pub const CELL_SIZE: usize = 8;

/// Width of the window in pixels.
pub const WIDTH: usize = CELL_SIZE * GRID_SIZE;

/// Height of the window in pixels.
pub const HEIGHT: usize = CELL_SIZE * GRID_SIZE;

/// The colour of a live cell.
pub const ALIVE_COLOUR: u32 = 0xFFFFFF;

/// The colour of a dead cell.
pub const DEAD_COLOUR: u32 = 0;

/// The colour that shows a cell.
pub open spec fn colour_of(is_alive: bool) -> u32 {
    if is_alive {
        ALIVE_COLOUR
    } else {
        DEAD_COLOUR
    }
}

/// The column of the pixel at `index` of the buffer.
pub open spec fn pixel_x(index: int) -> int {
    index % (WIDTH as int)
}

/// The row of the pixel at `index` of the buffer.
pub open spec fn pixel_y(index: int) -> int {
    index / (WIDTH as int)
}

/// The colour of the pixel at `index` of the buffer when `cells` is shown:
/// that of the cell whose square holds the pixel. A pixel below the last row
/// of cells is black.
pub open spec fn pixel_colour(cells: Seq<bool>, index: int) -> u32 {
    colour_of(
        alive(cells, pixel_x(index) / (CELL_SIZE as int), pixel_y(index) / (CELL_SIZE as int)),
    )
}

/// The generation that an edit leaves: the cell under the pointer is alive
/// where the primary button is held, dead where only the secondary one is,
/// and nothing changes where neither is held or the pointer is outside the
/// grid.
pub open spec fn edited(
    cells: Seq<bool>,
    pointer_x: int,
    pointer_y: int,
    primary_held: bool,
    secondary_held: bool,
) -> Seq<bool> {
    let x = pointer_x / (CELL_SIZE as int);
    let y = pointer_y / (CELL_SIZE as int);
    if in_bounds(x, y) && (primary_held || secondary_held) {
        cells.update(cell_index(x, y), primary_held)
    } else {
        cells
    }
}

/// The cell whose square holds the pixel in column `pixel_x` of row
/// `pixel_y`, as its column and its row.
pub fn cell_at_pixel(pixel_x: usize, pixel_y: usize) -> (cell: (usize, usize))
    ensures
        cell.0 == pixel_x / CELL_SIZE,
        cell.1 == pixel_y / CELL_SIZE,
        pixel_x < WIDTH && pixel_y < HEIGHT <==> in_bounds(cell.0 as int, cell.1 as int),
{
    (pixel_x / CELL_SIZE, pixel_y / CELL_SIZE)
}

/// Edits the cell under the pointer: the primary button brings it to life,
/// the secondary button kills it, and the primary one wins where both are
/// held. With no button held, or the pointer outside the window, nothing
/// changes.
pub fn edit_at_pointer(
    grid: &mut Grid,
    pointer_x: usize,
    pointer_y: usize,
    primary_held: bool,
    secondary_held: bool,
)
    ensures
        final(grid)@ == edited(
            old(grid)@,
            pointer_x as int,
            pointer_y as int,
            primary_held,
            secondary_held,
        ),
        final(grid).scratch() == old(grid).scratch(),
{
    let (x, y) = cell_at_pixel(pointer_x, pointer_y);
    if primary_held {
        grid.set_cell_value(x, y, true);
    } else if secondary_held {
        grid.set_cell_value(x, y, false);
    }
}

/// The colour of the pixel at `index` of the buffer.
pub fn colour_at(grid: &Grid, index: usize) -> (colour: u32)
    ensures
        colour == pixel_colour(grid@, index as int),
{
    let x = index % WIDTH;
    let y = index / WIDTH;
    if grid.get_cell_value(x / CELL_SIZE, y / CELL_SIZE) {
        ALIVE_COLOUR
    } else {
        DEAD_COLOUR
    }
}

/// Paints the current generation into `buffer`, whatever it held before.
/// The buffer keeps its length.
pub fn render(grid: &Grid, buffer: &mut Vec<u32>)
    ensures
        final(buffer)@.len() == old(buffer)@.len(),
        forall|index: int|
            0 <= index < final(buffer)@.len() ==> #[trigger] final(buffer)@[index] == pixel_colour(
                grid@,
                index,
            ),
{
    let length = buffer.len();
    for index in 0..length
        invariant
            buffer@.len() == length,
            forall|done: int|
                0 <= done < index ==> #[trigger] buffer@[done] == pixel_colour(grid@, done),
    {
        buffer[index] = colour_at(grid, index);
    }
}

/// Every pixel of a cell's square has the colour of that cell: the pixel
/// `dx` columns and `dy` rows into the square of the cell in column `x` of
/// row `y` is white where the cell is alive and black where it is dead.
pub proof fn lemma_square_of_one_colour(cells: Seq<bool>, x: int, y: int, dx: int, dy: int)
    requires
        is_generation(cells),
        in_bounds(x, y),
        0 <= dx < CELL_SIZE,
        0 <= dy < CELL_SIZE,
    ensures
        0 <= (y * CELL_SIZE + dy) * WIDTH + (x * CELL_SIZE + dx) < WIDTH * HEIGHT,
        pixel_colour(cells, (y * CELL_SIZE + dy) * WIDTH + (x * CELL_SIZE + dx)) == colour_of(
            alive(cells, x, y),
        ),
{
}

} // verus!
