//! The double-buffered grid.

use vstd::prelude::*;
use crate::rules::{
    alive, cell_index, in_bounds, is_generation, live_neighbours, next_generation,
    alive_next, dead_generation, lemma_next_generation_cells, CELL_COUNT, GRID_SIZE,
};

verus! {

/// A grid of `GRID_SIZE` by `GRID_SIZE` cells.
///
/// The front buffer is the current generation, the one that reads and edits
/// see. The back buffer is scratch space into which a step writes the next
/// generation before the two change places.
pub struct Grid {
    front_buffer: Vec<bool>,
    back_buffer: Vec<bool>,
}

impl View for Grid {
    type V = Seq<bool>;

    /// The current generation.
    closed spec fn view(&self) -> Seq<bool> {
        self.front_buffer@
    }
}

impl Grid {
    #[verifier::type_invariant]
    spec fn both_buffers_full(self) -> bool {
        self.front_buffer@.len() == CELL_COUNT && self.back_buffer@.len() == CELL_COUNT
    }

    /// What the scratch buffer holds.
    pub closed spec fn scratch(&self) -> Seq<bool> {
        self.back_buffer@
    }

    /// A grid in which every cell is dead.
    pub fn new() -> (grid: Grid)
        ensures
            grid@ == dead_generation(),
            grid.scratch() == dead_generation(),
    {
        let grid = Grid { front_buffer: vec![false; CELL_COUNT], back_buffer: vec![false; CELL_COUNT] };
        assert(grid.front_buffer@ =~= dead_generation());
        assert(grid.back_buffer@ =~= dead_generation());
        grid
    }

    /// Whether column `x` of row `y` lies inside the grid.
    pub fn is_in_bounds(x: usize, y: usize) -> (inside: bool)
        ensures
            inside == in_bounds(x as int, y as int),
    {
        x < GRID_SIZE && y < GRID_SIZE
    }

    /// Splits a flat index into its column `x` and its row `y`.
    pub fn get_xy(value: usize, x: &mut usize, y: &mut usize)
        ensures
            *final(x) == value % GRID_SIZE,
            *final(y) == value / GRID_SIZE,
            cell_index(*final(x) as int, *final(y) as int) == value,
            value < CELL_COUNT ==> in_bounds(*final(x) as int, *final(y) as int),
    {
        *x = value % GRID_SIZE;
        *y = value / GRID_SIZE;
    }

    /// Reads the current generation. A position outside the grid is dead.
    pub fn get_cell_value(&self, x: usize, y: usize) -> (value: bool)
        ensures
            is_generation(self@),
            value == alive(self@, x as int, y as int),
            !in_bounds(x as int, y as int) ==> !value,
    {
        proof {
            use_type_invariant(self);
        }
        if !Grid::is_in_bounds(x, y) {
            return false;
        }
        self.front_buffer[y * GRID_SIZE + x]
    }

    /// Writes the current generation. A position outside the grid is left
    /// alone: nothing changes.
    pub fn set_cell_value(&mut self, x: usize, y: usize, value: bool)
        ensures
            is_generation(final(self)@),
            in_bounds(x as int, y as int) ==> final(self)@ == old(self)@.update(
                cell_index(x as int, y as int),
                value,
            ),
            !in_bounds(x as int, y as int) ==> final(self)@ == old(self)@,
            final(self).scratch() == old(self).scratch(),
    {
        proof {
            use_type_invariant(&*self);
        }
        if Grid::is_in_bounds(x, y) {
            self.front_buffer[y * GRID_SIZE + x] = value;
        }
    }

    /// Counts the live cells among the eight positions that surround column
    /// `x` of row `y`. Positions outside the grid count as dead, so the cells
    /// on an edge see nothing from the opposite edge.
    pub fn compute_neighbour(&self, x: usize, y: usize) -> (count: u32)
        ensures
            count == live_neighbours(self@, x as int, y as int),
            count <= 8,
    {
        if x > GRID_SIZE || y > GRID_SIZE {
            return 0;
        }
        let mut count = 0u32;

        if self.get_cell_value(x.wrapping_sub(1), y.wrapping_sub(1)) {
            count += 1;
        }
        if self.get_cell_value(x, y.wrapping_sub(1)) {
            count += 1;
        }
        if self.get_cell_value(x + 1, y.wrapping_sub(1)) {
            count += 1;
        }
        if self.get_cell_value(x.wrapping_sub(1), y) {
            count += 1;
        }
        if self.get_cell_value(x + 1, y) {
            count += 1;
        }
        if self.get_cell_value(x.wrapping_sub(1), y + 1) {
            count += 1;
        }
        if self.get_cell_value(x, y + 1) {
            count += 1;
        }
        if self.get_cell_value(x + 1, y + 1) {
            count += 1;
        }

        count
    }

    /// Makes the scratch buffer the current generation, and the current
    /// generation the scratch buffer.
    pub fn swap_buffers(&mut self)
        ensures
            final(self)@ == old(self).scratch(),
            final(self).scratch() == old(self)@,
            is_generation(final(self)@),
            is_generation(final(self).scratch()),
    {
        proof {
            use_type_invariant(&*self);
        }
        std::mem::swap(&mut self.front_buffer, &mut self.back_buffer);
    }

    /// Advances the grid by one generation.
    ///
    /// Every cell of the new generation is computed from the generation that
    /// was current when the call began, and only the finished generation
    /// becomes current: a read never sees a mixture of the two. The scratch
    /// buffer is left holding the generation that was replaced.
    pub fn update(&mut self)
        ensures
            final(self)@ == next_generation(old(self)@),
            final(self).scratch() == old(self)@,
            forall|x: int, y: int|
                alive(final(self)@, x, y) == #[trigger] alive_next(old(self)@, x, y),
    {
        proof {
            use_type_invariant(&*self);
        }
        let ghost before = self@;
        for index in 0..CELL_COUNT
            invariant
                is_generation(before),
                self.front_buffer@ == before,
                self.back_buffer@.len() == CELL_COUNT,
                forall|done: int|
                    0 <= done < index ==> self.back_buffer@[done] == next_generation(before)[done],
        {
            let mut x = 0usize;
            let mut y = 0usize;
            Grid::get_xy(index, &mut x, &mut y);

            self.back_buffer[index] = match self.compute_neighbour(x, y) {
                2 => self.front_buffer[index],
                3 => true,
                _ => false,
            };
        }
        assert(self.back_buffer@ =~= next_generation(before));

        self.swap_buffers();
        proof {
            lemma_next_generation_cells(before);
        }
    }
}

} // verus!
