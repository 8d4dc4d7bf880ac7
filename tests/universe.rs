use wasm_game_of_life::universe::{ALIVE_THRESHOLD, DRAW_RANGE};
use wasm_game_of_life::{something, Cell, Universe};

use Cell::{Alive, Dead};

fn grid(width: u32, height: u32, cells: Vec<Cell>) -> Universe {
    Universe::from_cells(width, height, cells).unwrap()
}

#[test]
fn test_get_index() {
    let universe = Universe::new(5);

    let row = 3;
    let column = 3;
    let expected_result: usize = 18;

    assert_eq!(expected_result, universe.get_index(row, column));
}

#[test]
fn test_get_index_above() {
    let universe = Universe::new(5);

    assert_eq!(13, universe.get_index_above(3, 3).unwrap());
    assert_eq!(None, universe.get_index_above(0, 3));
}

#[test]
fn test_get_index_right() {
    let universe = Universe::new(5);

    assert_eq!(19, universe.get_index_right(3, 3).unwrap());
    assert_eq!(None, universe.get_index_right(3, 4));
}

#[test]
fn test_get_index_below() {
    let universe = Universe::new(5);

    assert_eq!(23, universe.get_index_below(3, 3).unwrap());
    assert_eq!(None, universe.get_index_below(4, 3));
}

#[test]
fn test_get_index_left() {
    let universe = Universe::new(5);

    assert_eq!(17, universe.get_index_left(3, 3).unwrap());
    assert_eq!(None, universe.get_index_left(3, 0));
}

#[test]
fn test_get_index_above_right() {
    let universe = Universe::new(5);

    assert_eq!(14, universe.get_index_above_right(3, 3).unwrap());
    assert_eq!(None, universe.get_index_above_right(1, 4));
    assert_eq!(None, universe.get_index_above_right(0, 2));
}

#[test]
fn test_get_index_below_right() {
    let universe = Universe::new(5);

    assert_eq!(24, universe.get_index_below_right(3, 3).unwrap());
    assert_eq!(None, universe.get_index_below_right(3, 4));
    assert_eq!(None, universe.get_index_below_right(4, 3));
}

#[test]
fn test_get_index_below_left() {
    let universe = Universe::new(5);

    assert_eq!(22, universe.get_index_below_left(3, 3).unwrap());
    assert_eq!(None, universe.get_index_below_left(3, 0));
    assert_eq!(None, universe.get_index_below_left(4, 3));
}

#[test]
fn test_get_index_above_left() {
    let universe = Universe::new(5);

    assert_eq!(12, universe.get_index_above_left(3, 3).unwrap());
    assert_eq!(None, universe.get_index_above_left(0, 3));
    assert_eq!(None, universe.get_index_above_left(3, 0));
}

#[test]
fn test_live_neighbors_count() {
    // [
    //     [0, 1, 1],
    //     [1, 0, 1],
    //     [0, 0, 1],
    // ]
    let cells = vec![Dead, Alive, Alive, Alive, Dead, Alive, Dead, Dead, Alive];
    let universe = grid(3, 3, cells);

    assert_eq!(5, universe.live_neighbor_count(1, 1));
}

#[test]
fn test_tick() {
    // [
    //     [0, 1, 1],
    //     [1, 0, 1],
    //     [0, 0, 1],
    // ]
    let initial_cells = vec![Dead, Alive, Alive, Alive, Dead, Alive, Dead, Dead, Alive];
    // [
    //     [0, 1, 1],
    //     [0, 0, 1],
    //     [0, 1, 0],
    // ]
    let after_cells = vec![Dead, Alive, Alive, Dead, Dead, Alive, Dead, Alive, Dead];
    let mut universe = grid(3, 3, initial_cells);
    universe.tick();
    assert_eq!(after_cells, universe.cells());
}

#[test]
fn test_render_for_universe() {
    // [
    //     [0, 1, 1],
    //     [0, 0, 1],
    //     [0, 1, 0],
    // ]
    let cells = vec![Dead, Alive, Alive, Dead, Dead, Alive, Dead, Alive, Dead];
    let universe = grid(3, 3, cells);
    let expected_result = "◻◼◼\n◻◻◼\n◻◼◻\n";
    assert_eq!(expected_result, universe.render());
}

#[test]
fn test_display_for_cell() {
    let alive_cell = Cell::Alive;
    let dead_cell = Cell::Dead;

    assert_eq!("◼", alive_cell.to_string());
    assert_eq!("◻", dead_cell.to_string());
}

#[test]
fn test_new_universe() {
    let universe = Universe::new(3);

    assert_eq!(3, universe.width());
    assert_eq!(3, universe.height());
    assert_eq!(vec![Dead; 9], universe.cells());
}

#[test]
fn index_is_row_major_on_every_position() {
    let universe = Universe::new(5);
    for row in 0..5u32 {
        for column in 0..5u32 {
            assert_eq!((row * 5 + column) as usize, universe.get_index(row, column));
        }
    }
}

#[test]
fn neighbours_are_absent_along_every_edge() {
    let universe = Universe::with_dimensions(4, 3);
    for column in 0..4u32 {
        assert_eq!(None, universe.get_index_above(0, column));
        assert_eq!(None, universe.get_index_above_left(0, column));
        assert_eq!(None, universe.get_index_above_right(0, column));
        assert_eq!(None, universe.get_index_below(2, column));
        assert_eq!(None, universe.get_index_below_left(2, column));
        assert_eq!(None, universe.get_index_below_right(2, column));
    }
    for row in 0..3u32 {
        assert_eq!(None, universe.get_index_left(row, 0));
        assert_eq!(None, universe.get_index_above_left(row, 0));
        assert_eq!(None, universe.get_index_below_left(row, 0));
        assert_eq!(None, universe.get_index_right(row, 3));
        assert_eq!(None, universe.get_index_above_right(row, 3));
        assert_eq!(None, universe.get_index_below_right(row, 3));
    }
    assert_eq!(Some(5), universe.get_index_below_right(0, 0));
    assert_eq!(Some(6), universe.get_index_above_left(2, 3));
}

#[test]
fn live_neighbor_count_reaches_eight_and_ignores_the_cell_itself() {
    let universe = grid(3, 3, vec![Alive; 9]);
    assert_eq!(8, universe.live_neighbor_count(1, 1));
    assert_eq!(3, universe.live_neighbor_count(0, 0));
    assert_eq!(5, universe.live_neighbor_count(0, 1));
}

#[test]
fn corners_do_not_wrap() {
    // Only the opposite corner is alive: on a torus it would be a neighbour.
    let universe = grid(3, 3, vec![Dead, Dead, Dead, Dead, Dead, Dead, Dead, Dead, Alive]);
    assert_eq!(0, universe.live_neighbor_count(0, 0));
}

#[test]
fn dead_grids_stay_dead() {
    for size in 0..6u32 {
        let mut universe = Universe::new(size);
        universe.tick();
        assert_eq!(size, universe.width());
        assert_eq!(size, universe.height());
        assert_eq!(vec![Dead; (size * size) as usize], universe.cells());
    }
}

#[test]
fn tick_reads_only_the_previous_generation() {
    // A vertical blinker turns horizontal. Updating in place, row by row,
    // would kill the top cell before its neighbours are counted and give a
    // different grid.
    let vertical = vec![Dead, Alive, Dead, Dead, Alive, Dead, Dead, Alive, Dead];
    let horizontal = vec![Dead, Dead, Dead, Alive, Alive, Alive, Dead, Dead, Dead];
    let mut universe = grid(3, 3, vertical.clone());
    universe.tick();
    assert_eq!(horizontal, universe.cells());
    universe.tick();
    assert_eq!(vertical, universe.cells());
}

#[test]
fn block_is_still_and_lonely_cells_die() {
    let mut block = grid(4, 4, {
        let mut c = vec![Dead; 16];
        c[5] = Alive;
        c[6] = Alive;
        c[9] = Alive;
        c[10] = Alive;
        c
    });
    let before = block.cells().to_vec();
    block.tick();
    assert_eq!(before, block.cells());

    let mut lonely = grid(2, 1, vec![Alive, Alive]);
    lonely.tick();
    assert_eq!(vec![Dead, Dead], lonely.cells());
}

#[test]
fn overcrowded_cells_die() {
    let mut universe = grid(3, 3, vec![Alive; 9]);
    universe.tick();
    assert_eq!(vec![Alive, Dead, Alive, Dead, Dead, Dead, Alive, Dead, Alive], universe.cells());
}

#[test]
fn render_of_degenerate_grids() {
    assert_eq!("", Universe::new(0).render());
    assert_eq!("\n\n", Universe::with_dimensions(0, 2).render());
    assert_eq!("◻◻◻\n", Universe::with_dimensions(3, 1).render());
    assert_eq!("◼\n◻\n", grid(1, 2, vec![Alive, Dead]).render());
}

#[test]
fn render_matches_to_string() {
    let universe = grid(2, 2, vec![Alive, Dead, Dead, Alive]);
    assert_eq!("◼◻\n◻◼\n", universe.to_string());
    assert_eq!(universe.to_string(), universe.render());
}

#[test]
fn with_dimensions_is_not_square() {
    let universe = Universe::with_dimensions(4, 2);
    assert_eq!(4, universe.width());
    assert_eq!(2, universe.height());
    assert_eq!(vec![Dead; 8], universe.cells());
}

#[test]
fn from_cells_rejects_a_wrong_length() {
    assert!(Universe::from_cells(3, 3, vec![Dead; 8]).is_none());
    assert!(Universe::from_cells(3, 3, vec![Dead; 10]).is_none());
    assert!(Universe::from_cells(u32::MAX, u32::MAX, vec![]).is_none());
    assert!(Universe::from_cells(0, 7, vec![]).is_some());
}

#[test]
fn something_is_dead() {
    assert_eq!(Dead, something());
}

#[test]
fn reseed_switches_on_only_above_the_threshold() {
    let mut universe = grid(2, 2, vec![Alive, Dead, Dead, Alive]);
    universe.reseed(&vec![0, 66, 65, 10], 65);
    assert_eq!(vec![Alive, Alive, Dead, Alive], universe.cells());
    universe.reseed(&vec![99, 99, 99, 99], 65);
    assert_eq!(vec![Alive; 4], universe.cells());
}

#[test]
fn reseed_never_switches_a_cell_off() {
    let mut universe = grid(3, 1, vec![Alive, Alive, Alive]);
    universe.reseed(&vec![0, 0, 0], 65);
    assert_eq!(vec![Alive; 3], universe.cells());
}

#[test]
fn randomize_keeps_live_cells_alive() {
    let start = vec![Alive, Dead, Alive, Dead, Dead, Dead, Alive, Dead, Dead];
    for _ in 0..20 {
        let mut universe = grid(3, 3, start.clone());
        universe.randomize();
        assert_eq!(3, universe.width());
        assert_eq!(9, universe.cells().len());
        for (before, after) in start.iter().zip(universe.cells()) {
            assert!(*after == Alive || after == before);
        }
    }
}

#[test]
fn randomize_below_the_threshold_changes_nothing() {
    let start = vec![Dead, Alive, Dead, Dead];
    for _ in 0..20 {
        let mut universe = grid(2, 2, start.clone());
        universe.randomize_in(10, 9);
        assert_eq!(start, universe.cells());
    }
}

#[test]
fn randomize_above_a_zero_range_switches_everything_on() {
    // With threshold 0 and draws from [0, 1000), a grid of this size is
    // all but certain to gain live cells.
    let mut universe = Universe::new(20);
    universe.randomize_in(1000, 0);
    assert!(universe.cells().iter().any(|c| *c == Alive));
}

#[test]
fn default_draw_parameters() {
    assert_eq!(100, DRAW_RANGE);
    assert_eq!(65, ALIVE_THRESHOLD);
}
