use game_of_life::{Cell, Universe};

/// Builds a grid from rows of text: `#` is a live cell, anything else a dead one.
fn grid(rows: &[&str]) -> Universe {
    let height = rows.len() as u32;
    let width = rows[0].chars().count() as u32;
    let mut cells = Vec::new();
    for row in rows {
        for glyph in row.chars() {
            cells.push(Cell::from_bool(glyph == '#'));
        }
    }
    Universe::from_cells(width, height, cells).unwrap()
}

fn ticked(rows: &[&str], times: usize) -> Universe {
    let mut universe = grid(rows);
    for _ in 0..times {
        universe.tick();
    }
    universe
}

#[test]
fn cell_count_is_width_times_height_after_every_tick() {
    let mut universe = grid(&["#..#.", ".##..", "#...#"]);
    assert_eq!(universe.cells().len(), 15);
    for _ in 0..10 {
        universe.tick();
        assert_eq!(universe.width(), 5);
        assert_eq!(universe.height(), 3);
        assert_eq!(universe.cells().len(), 15);
    }
}

#[test]
fn index_is_row_major() {
    let universe = grid(&[".....", ".....", "....."]);
    assert_eq!(universe.get_index(0, 0), 0);
    assert_eq!(universe.get_index(0, 4), 4);
    assert_eq!(universe.get_index(1, 0), 5);
    assert_eq!(universe.get_index(2, 3), 13);
}

#[test]
fn cell_state_reads_the_cell() {
    let universe = grid(&[".#.", "..#"]);
    assert_eq!(universe.cell_state(0, 0), Cell::Dead);
    assert_eq!(universe.cell_state(0, 1), Cell::Alive);
    assert_eq!(universe.cell_state(1, 2), Cell::Alive);
    assert_eq!(universe.cell_state(1, 1), Cell::Dead);
}

#[test]
fn get_is_none_outside_the_grid() {
    let universe = grid(&[".#.", "..#"]);
    assert_eq!(universe.get(0, 1), Some(Cell::Alive));
    assert_eq!(universe.get(1, 0), Some(Cell::Dead));
    assert_eq!(universe.get(2, 0), None);
    assert_eq!(universe.get(0, 3), None);
    assert_eq!(universe.get(u32::MAX, u32::MAX), None);
}

#[test]
fn neighbors_in_the_middle() {
    let universe = grid(&["###", "#.#", "###"]);
    assert_eq!(universe.neighbor_count(1, 1), 8);
    let universe = grid(&["#....", ".....", "..#..", ".....", "....."]);
    assert_eq!(universe.neighbor_count(1, 1), 2);
    assert_eq!(universe.neighbor_count(2, 2), 0);
    assert_eq!(universe.neighbor_count(3, 3), 1);
}

#[test]
fn top_row_counts_the_bottom_row() {
    let universe = grid(&[".....", ".....", ".....", ".###."]);
    assert_eq!(universe.neighbor_count(0, 2), 3);
    assert_eq!(universe.neighbor_count(0, 0), 1);
    assert_eq!(universe.neighbor_count(1, 2), 0);
}

#[test]
fn bottom_row_counts_the_top_row() {
    let universe = grid(&[".###.", ".....", ".....", "....."]);
    assert_eq!(universe.neighbor_count(3, 2), 3);
    assert_eq!(universe.neighbor_count(3, 4), 1);
}

#[test]
fn first_column_counts_the_last_column() {
    let universe = grid(&["....#", "....#", "....#"]);
    assert_eq!(universe.neighbor_count(1, 0), 3);
    assert_eq!(universe.neighbor_count(1, 3), 3);
    assert_eq!(universe.neighbor_count(1, 1), 0);
}

#[test]
fn last_column_counts_the_first_column() {
    let universe = grid(&["#....", "#....", "#...."]);
    assert_eq!(universe.neighbor_count(1, 4), 3);
    assert_eq!(universe.neighbor_count(1, 2), 0);
}

#[test]
fn corner_counts_the_opposite_corner() {
    let universe = grid(&[".....", ".....", "....#"]);
    assert_eq!(universe.neighbor_count(0, 0), 1);
    let universe = grid(&["#....", ".....", "....."]);
    assert_eq!(universe.neighbor_count(2, 4), 1);
}

#[test]
fn columns_wrap_by_width_on_a_wide_grid() {
    // Two rows, seven columns: a column modulus taken from the height
    // would look at columns 0 and 1 only.
    let universe = grid(&["......#", "......."]);
    assert_eq!(universe.neighbor_count(0, 5), 1);
    assert_eq!(universe.neighbor_count(1, 5), 2);
    assert_eq!(universe.neighbor_count(0, 0), 1);
    assert_eq!(universe.neighbor_count(0, 3), 0);
    let universe = grid(&["....#..", "......."]);
    assert_eq!(universe.neighbor_count(0, 3), 1);
    assert_eq!(universe.neighbor_count(0, 5), 1);
    assert_eq!(universe.neighbor_count(0, 0), 0);
    assert_eq!(universe.neighbor_count(0, 1), 0);
}

#[test]
fn rows_wrap_by_height_on_a_tall_grid() {
    let universe = grid(&["..", "..", "..", "..", "..", "..", "#."]);
    assert_eq!(universe.neighbor_count(0, 0), 1);
    assert_eq!(universe.neighbor_count(0, 1), 2);
    assert_eq!(universe.neighbor_count(5, 0), 1);
    assert_eq!(universe.neighbor_count(3, 0), 0);
    assert_eq!(universe.neighbor_count(1, 0), 0);
}

#[test]
fn a_single_cell_is_its_own_eight_neighbors() {
    let universe = grid(&["#"]);
    assert_eq!(universe.neighbor_count(0, 0), 8);
    let universe = grid(&["."]);
    assert_eq!(universe.neighbor_count(0, 0), 0);
}

#[test]
fn a_single_live_cell_on_a_one_by_one_grid_dies_of_crowding() {
    let universe = ticked(&["#"], 1);
    assert_eq!(universe.cell_state(0, 0), Cell::Dead);
}

#[test]
fn dead_grid_stays_dead() {
    let rows = ["....", "....", "...."];
    assert_eq!(ticked(&rows, 1), grid(&rows));
    assert_eq!(ticked(&rows, 7), grid(&rows));
    for cell in ticked(&rows, 3).cells() {
        assert_eq!(*cell, Cell::Dead);
    }
}

#[test]
fn block_is_stable() {
    let rows = ["....", ".##.", ".##.", "...."];
    let universe = grid(&rows);
    assert_eq!(universe.neighbor_count(1, 1), 3);
    assert_eq!(universe.neighbor_count(1, 2), 3);
    assert_eq!(universe.neighbor_count(2, 1), 3);
    assert_eq!(universe.neighbor_count(2, 2), 3);
    assert_eq!(ticked(&rows, 1), grid(&rows));
    assert_eq!(ticked(&rows, 2), grid(&rows));
    assert_eq!(ticked(&rows, 25), grid(&rows));
}

#[test]
fn block_across_the_edges_is_stable() {
    let rows = ["#....#", "......", "......", "......", "#....#"];
    assert_eq!(ticked(&rows, 1), grid(&rows));
    assert_eq!(ticked(&rows, 12), grid(&rows));
}

#[test]
fn blinker_has_period_two() {
    let flat = [".....", ".....", ".###.", ".....", "....."];
    let upright = [".....", "..#..", "..#..", "..#..", "....."];
    assert_eq!(ticked(&flat, 1), grid(&upright));
    assert_eq!(ticked(&flat, 2), grid(&flat));
    assert_eq!(ticked(&flat, 3), grid(&upright));
    assert_eq!(ticked(&upright, 1), grid(&flat));
}

#[test]
fn blinker_on_a_non_square_grid() {
    let flat = ["......", "##...#", "......", "......"];
    let upright = ["#.....", "#.....", "#.....", "......"];
    assert_eq!(ticked(&flat, 1), grid(&upright));
    assert_eq!(ticked(&flat, 2), grid(&flat));
}

#[test]
fn lone_cell_dies() {
    let universe = grid(&[".....", ".....", "..#..", ".....", "....."]);
    assert_eq!(universe.neighbor_count(2, 2), 0);
    let after = ticked(&[".....", ".....", "..#..", ".....", "....."], 1);
    assert_eq!(after.cell_state(2, 2), Cell::Dead);
    assert_eq!(after, grid(&[".....", ".....", ".....", ".....", "....."]));
}

#[test]
fn pair_of_cells_dies() {
    let rows = [".....", ".##..", ".....", ".....", "....."];
    assert_eq!(ticked(&rows, 1), grid(&[".....", ".....", ".....", ".....", "....."]));
}

#[test]
fn crowded_cell_dies_and_three_neighbors_give_birth() {
    let rows = [".....", ".#.#.", "..#..", ".#.#.", "....."];
    let universe = grid(&rows);
    assert_eq!(universe.neighbor_count(2, 2), 4);
    assert_eq!(universe.neighbor_count(1, 2), 3);
    let after = ticked(&rows, 1);
    assert_eq!(after, grid(&[".....", "..#..", ".#.#.", "..#..", "....."]));
}

#[test]
fn tick_reads_the_old_generation_only() {
    // Updating in place, row by row, would see the first row already
    // changed when it reaches the second.
    let rows = ["......", "..##..", ".##...", "..#...", "......", "......"];
    let after = ticked(&rows, 1);
    assert_eq!(after, grid(&["......", ".###..", ".#....", ".##...", "......", "......"]));
}

#[test]
fn glider_moves_one_cell_diagonally_in_four_ticks() {
    let start = [".#......", "..#.....", "###.....", "........", "........", "........"];
    let moved = ["........", "..#.....", "...#....", ".###....", "........", "........"];
    assert_eq!(ticked(&start, 4), grid(&moved));
}

#[test]
fn clone_is_equal_and_independent() {
    let mut universe = grid(&[".....", ".....", ".###.", ".....", "....."]);
    let before = universe.clone();
    assert_eq!(before, universe);
    universe.tick();
    assert_ne!(before, universe);
    assert_eq!(before, grid(&[".....", ".....", ".###.", ".....", "....."]));
}

#[test]
fn grids_of_different_shape_are_not_equal() {
    assert_ne!(grid(&["....", "...."]), grid(&["..", "..", "..", ".."]));
    assert_ne!(grid(&["#..."]), grid(&[".#.."]));
}
