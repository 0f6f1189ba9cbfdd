use game_of_life::grid::Grid;
use game_of_life::rules::{CELL_COUNT, GRID_SIZE};

fn grid_with(cells: &[(usize, usize)]) -> Grid {
    let mut grid = Grid::new();
    for &(x, y) in cells {
        grid.set_cell_value(x, y, true);
    }
    grid
}

fn live_cells(grid: &Grid) -> Vec<(usize, usize)> {
    let mut found = Vec::new();
    for y in 0..GRID_SIZE {
        for x in 0..GRID_SIZE {
            if grid.get_cell_value(x, y) {
                found.push((x, y));
            }
        }
    }
    found
}

#[test]
fn grid_has_ten_thousand_cells() {
    assert_eq!(GRID_SIZE, 100);
    assert_eq!(CELL_COUNT, 10_000);
}

#[test]
fn new_grid_is_dead() {
    let grid = Grid::new();
    assert_eq!(live_cells(&grid), vec![]);
}

#[test]
fn is_in_bounds_at_the_limits() {
    assert!(Grid::is_in_bounds(0, 0));
    assert!(Grid::is_in_bounds(99, 99));
    assert!(!Grid::is_in_bounds(100, 0));
    assert!(!Grid::is_in_bounds(0, 100));
    assert!(!Grid::is_in_bounds(usize::MAX, 5));
    assert!(!Grid::is_in_bounds(5, usize::MAX));
}

#[test]
fn get_xy_splits_an_index() {
    let mut x = 7usize;
    let mut y = 7usize;
    Grid::get_xy(0, &mut x, &mut y);
    assert_eq!((x, y), (0, 0));
    Grid::get_xy(199, &mut x, &mut y);
    assert_eq!((x, y), (99, 1));
    Grid::get_xy(9_999, &mut x, &mut y);
    assert_eq!((x, y), (99, 99));
    Grid::get_xy(12_345, &mut x, &mut y);
    assert_eq!((x, y), (45, 123));
}

#[test]
fn get_xy_gives_the_index_back() {
    for index in 0..CELL_COUNT {
        let mut x = 0usize;
        let mut y = 0usize;
        Grid::get_xy(index, &mut x, &mut y);
        assert!(Grid::is_in_bounds(x, y));
        assert_eq!(y * GRID_SIZE + x, index);
    }
}

#[test]
fn set_then_get() {
    let mut grid = Grid::new();
    grid.set_cell_value(3, 4, true);
    assert!(grid.get_cell_value(3, 4));
    assert!(!grid.get_cell_value(4, 3));
    assert_eq!(live_cells(&grid), vec![(3, 4)]);
    grid.set_cell_value(3, 4, false);
    assert!(!grid.get_cell_value(3, 4));
    assert_eq!(live_cells(&grid), vec![]);
}

#[test]
fn set_outside_the_grid_changes_nothing() {
    let mut grid = grid_with(&[(0, 0), (99, 99), (0, 1)]);
    grid.set_cell_value(100, 0, true);
    grid.set_cell_value(0, 100, true);
    grid.set_cell_value(100, 99, false);
    grid.set_cell_value(usize::MAX, usize::MAX, true);
    assert_eq!(live_cells(&grid), vec![(0, 0), (0, 1), (99, 99)]);
}

#[test]
fn get_outside_the_grid_is_dead() {
    let mut grid = Grid::new();
    for y in 0..GRID_SIZE {
        for x in 0..GRID_SIZE {
            grid.set_cell_value(x, y, true);
        }
    }
    assert!(grid.get_cell_value(99, 99));
    assert!(!grid.get_cell_value(100, 0));
    assert!(!grid.get_cell_value(0, 100));
    assert!(!grid.get_cell_value(100, 100));
    assert!(!grid.get_cell_value(usize::MAX, 0));
    assert!(!grid.get_cell_value(0, usize::MAX));
    assert!(!grid.get_cell_value(usize::MAX, usize::MAX));
}

#[test]
fn compute_neighbour_counts_all_eight() {
    let grid = grid_with(&[
        (4, 4), (5, 4), (6, 4),
        (4, 5), (5, 5), (6, 5),
        (4, 6), (5, 6), (6, 6),
    ]);
    assert_eq!(grid.compute_neighbour(5, 5), 8);
    assert_eq!(grid.compute_neighbour(4, 4), 3);
    assert_eq!(grid.compute_neighbour(5, 4), 5);
    assert_eq!(grid.compute_neighbour(5, 3), 3);
    assert_eq!(grid.compute_neighbour(3, 3), 1);
    assert_eq!(grid.compute_neighbour(2, 5), 0);
}

#[test]
fn compute_neighbour_leaves_the_cell_itself_out() {
    let grid = grid_with(&[(5, 5)]);
    assert_eq!(grid.compute_neighbour(5, 5), 0);
    assert_eq!(grid.compute_neighbour(6, 5), 1);
}

#[test]
fn compute_neighbour_does_not_wrap_around() {
    let grid = grid_with(&[(99, 0), (99, 1), (0, 99), (1, 99), (99, 99)]);
    assert_eq!(grid.compute_neighbour(0, 0), 0);
    assert_eq!(grid.compute_neighbour(0, 1), 0);
    assert_eq!(grid.compute_neighbour(1, 0), 0);
    assert_eq!(grid.compute_neighbour(99, 0), 1);
    assert_eq!(grid.compute_neighbour(0, 99), 1);
}

#[test]
fn compute_neighbour_in_a_corner() {
    let grid = grid_with(&[(1, 0), (0, 1), (1, 1)]);
    assert_eq!(grid.compute_neighbour(0, 0), 3);
    let grid = grid_with(&[(98, 99), (98, 98), (99, 98)]);
    assert_eq!(grid.compute_neighbour(99, 99), 3);
}

#[test]
fn compute_neighbour_outside_the_grid() {
    let grid = grid_with(&[(99, 5), (0, 5), (0, 0), (99, 99)]);
    assert_eq!(grid.compute_neighbour(100, 5), 1);
    assert_eq!(grid.compute_neighbour(100, 100), 1);
    assert_eq!(grid.compute_neighbour(101, 5), 0);
    assert_eq!(grid.compute_neighbour(usize::MAX, 5), 0);
    assert_eq!(grid.compute_neighbour(usize::MAX, usize::MAX), 0);
    assert_eq!(grid.compute_neighbour(5, usize::MAX), 0);
}

#[test]
fn dead_grid_stays_dead() {
    let mut grid = Grid::new();
    grid.update();
    assert_eq!(live_cells(&grid), vec![]);
    grid.update();
    assert_eq!(live_cells(&grid), vec![]);
}

#[test]
fn lone_cell_dies() {
    let mut grid = grid_with(&[(50, 50)]);
    grid.update();
    assert!(!grid.get_cell_value(50, 50));
    assert_eq!(live_cells(&grid), vec![]);
}

#[test]
fn cell_with_one_neighbour_dies() {
    let mut grid = grid_with(&[(50, 50), (51, 50)]);
    grid.update();
    assert_eq!(live_cells(&grid), vec![]);
}

#[test]
fn cell_with_four_neighbours_dies() {
    let mut grid = grid_with(&[(10, 10), (9, 10), (11, 10), (10, 9), (10, 11)]);
    assert_eq!(grid.compute_neighbour(10, 10), 4);
    grid.update();
    assert!(!grid.get_cell_value(10, 10));
}

#[test]
fn cell_with_eight_neighbours_dies() {
    let mut grid = grid_with(&[
        (4, 4), (5, 4), (6, 4),
        (4, 5), (5, 5), (6, 5),
        (4, 6), (5, 6), (6, 6),
    ]);
    grid.update();
    assert!(!grid.get_cell_value(5, 5));
    assert_eq!(
        live_cells(&grid),
        vec![(5, 3), (4, 4), (6, 4), (3, 5), (7, 5), (4, 6), (6, 6), (5, 7)]
    );
}

#[test]
fn cell_with_two_neighbours_stays_as_it_is() {
    let mut grid = grid_with(&[(10, 10), (11, 11), (12, 12)]);
    assert_eq!(grid.compute_neighbour(11, 11), 2);
    assert_eq!(grid.compute_neighbour(11, 10), 2);
    grid.update();
    assert!(grid.get_cell_value(11, 11));
    assert!(!grid.get_cell_value(11, 10));
    assert_eq!(live_cells(&grid), vec![(11, 11)]);
}

#[test]
fn dead_cell_with_three_neighbours_is_born() {
    let mut grid = grid_with(&[(10, 10), (11, 10), (10, 11)]);
    assert_eq!(grid.compute_neighbour(11, 11), 3);
    grid.update();
    assert!(grid.get_cell_value(11, 11));
    assert_eq!(live_cells(&grid), vec![(10, 10), (11, 10), (10, 11), (11, 11)]);
}

#[test]
fn block_is_stable() {
    let block = [(20, 30), (21, 30), (20, 31), (21, 31)];
    let mut grid = grid_with(&block);
    for _ in 0..5 {
        grid.update();
        assert_eq!(live_cells(&grid), block.to_vec());
    }
}

#[test]
fn block_in_a_corner_is_stable() {
    let block = [(0, 0), (1, 0), (0, 1), (1, 1)];
    let mut grid = grid_with(&block);
    grid.update();
    assert_eq!(live_cells(&grid), block.to_vec());
    let block = [(98, 98), (99, 98), (98, 99), (99, 99)];
    let mut grid = grid_with(&block);
    grid.update();
    assert_eq!(live_cells(&grid), block.to_vec());
}

#[test]
fn blinker_has_period_two() {
    let row = [(9, 10), (10, 10), (11, 10)];
    let column = [(10, 9), (10, 10), (10, 11)];
    let mut grid = grid_with(&row);
    grid.update();
    assert_eq!(live_cells(&grid), column.to_vec());
    grid.update();
    assert_eq!(live_cells(&grid), row.to_vec());
    grid.update();
    assert_eq!(live_cells(&grid), column.to_vec());
}

#[test]
fn blinker_on_the_border_is_cut_off() {
    let mut grid = grid_with(&[(9, 0), (10, 0), (11, 0)]);
    grid.update();
    assert_eq!(live_cells(&grid), vec![(10, 0), (10, 1)]);
    grid.update();
    assert_eq!(live_cells(&grid), vec![]);
}

#[test]
fn corner_cell_alone_dies() {
    for &(x, y) in &[(0, 0), (99, 0), (0, 99), (99, 99)] {
        let mut grid = grid_with(&[(x, y)]);
        assert_eq!(grid.compute_neighbour(x, y), 0);
        grid.update();
        assert_eq!(live_cells(&grid), vec![]);
    }
}

#[test]
fn opposite_edges_do_not_meet() {
    let mut grid = grid_with(&[(0, 10), (99, 9), (99, 10), (99, 11)]);
    grid.update();
    assert_eq!(live_cells(&grid), vec![(98, 10), (99, 10)]);
}

#[test]
fn glider_moves_one_cell_in_four_generations() {
    let mut grid = grid_with(&[(1, 0), (2, 1), (0, 2), (1, 2), (2, 2)]);
    grid.update();
    assert_eq!(live_cells(&grid), vec![(0, 1), (2, 1), (1, 2), (2, 2), (1, 3)]);
    grid.update();
    assert_eq!(live_cells(&grid), vec![(2, 1), (0, 2), (2, 2), (1, 3), (2, 3)]);
    grid.update();
    assert_eq!(live_cells(&grid), vec![(1, 1), (2, 2), (3, 2), (1, 3), (2, 3)]);
    grid.update();
    assert_eq!(live_cells(&grid), vec![(2, 1), (3, 2), (1, 3), (2, 3), (3, 3)]);
}

#[test]
fn update_reads_only_the_old_generation() {
    let mut grid = grid_with(&[(1, 1), (2, 1), (3, 1)]);
    grid.update();
    assert!(grid.get_cell_value(2, 0));
    assert!(grid.get_cell_value(2, 1));
    assert!(grid.get_cell_value(2, 2));
    assert!(!grid.get_cell_value(1, 1));
    assert!(!grid.get_cell_value(3, 1));
    assert_eq!(live_cells(&grid), vec![(2, 0), (2, 1), (2, 2)]);
}

#[test]
fn update_forgets_what_the_scratch_buffer_held() {
    let mut grid = grid_with(&[(20, 20), (21, 20), (20, 21)]);
    grid.swap_buffers();
    assert_eq!(live_cells(&grid), vec![]);
    grid.set_cell_value(5, 5, true);
    grid.update();
    assert_eq!(live_cells(&grid), vec![]);
}

#[test]
fn swap_buffers_changes_the_two_buffers() {
    let mut grid = grid_with(&[(3, 3)]);
    grid.swap_buffers();
    assert_eq!(live_cells(&grid), vec![]);
    grid.set_cell_value(7, 7, true);
    grid.swap_buffers();
    assert_eq!(live_cells(&grid), vec![(3, 3)]);
    grid.swap_buffers();
    assert_eq!(live_cells(&grid), vec![(7, 7)]);
}

#[test]
fn swap_buffers_after_update_gives_the_old_generation() {
    let row = [(9, 10), (10, 10), (11, 10)];
    let mut grid = grid_with(&row);
    grid.update();
    grid.swap_buffers();
    assert_eq!(live_cells(&grid), row.to_vec());
}
