use snake::grid::{Grid, Position};
use snake::spawn::{cell_from_draws, get_random_pos, random_position};

#[test]
fn the_lowest_draw_gives_the_first_cell() {
    assert_eq!(random_position(0, 35), 0);
    assert_eq!(random_position(0, 1), 0);
}

#[test]
fn the_highest_draw_gives_the_last_cell() {
    assert_eq!(random_position(u32::MAX, 35), 34);
    assert_eq!(random_position(u32::MAX, 30), 29);
    assert_eq!(random_position(u32::MAX, 1), 0);
    assert_eq!(random_position(u32::MAX, i32::MAX), i32::MAX - 1);
}

#[test]
fn a_draw_in_the_middle_gives_the_middle_rounded_down() {
    assert_eq!(random_position(0x8000_0000, 35), 17);
    assert_eq!(random_position(0x8000_0000, 30), 15);
    assert_eq!(random_position(0x4000_0000, 30), 7);
    assert_eq!(random_position(0xC000_0000, 35), 26);
}

#[test]
fn the_draws_split_evenly_over_the_axis() {
    // On an axis of 4 cells each quarter of the span is one cell.
    assert_eq!(random_position(0x3FFF_FFFF, 4), 0);
    assert_eq!(random_position(0x4000_0000, 4), 1);
    assert_eq!(random_position(0x7FFF_FFFF, 4), 1);
    assert_eq!(random_position(0x8000_0000, 4), 2);
    assert_eq!(random_position(0xBFFF_FFFF, 4), 2);
    assert_eq!(random_position(0xC000_0000, 4), 3);
}

#[test]
fn two_draws_make_a_cell() {
    let grid = Grid { width: 35, height: 30 };
    assert_eq!(cell_from_draws(&grid, 0, 0), Position::new(0, 0));
    assert_eq!(cell_from_draws(&grid, u32::MAX, u32::MAX), Position::new(34, 29));
    assert_eq!(cell_from_draws(&grid, 0x8000_0000, 0x4000_0000), Position::new(17, 7));
}

#[test]
fn random_cells_lie_in_the_grid() {
    let grid = Grid { width: 35, height: 30 };
    for _ in 0..500 {
        assert!(grid.holds(get_random_pos(&grid)));
    }
    let tiny = Grid { width: 1, height: 1 };
    assert_eq!(get_random_pos(&tiny), Position::new(0, 0));
}

#[test]
fn random_cells_are_not_all_the_same() {
    let grid = Grid { width: 35, height: 30 };
    let first = get_random_pos(&grid);
    let mut other = false;
    for _ in 0..200 {
        if get_random_pos(&grid) != first {
            other = true;
        }
    }
    assert!(other);
}
