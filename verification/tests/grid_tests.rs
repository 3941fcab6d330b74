use snake::grid::{step_down, step_up, wrapped, Direction, Grid, Position};

#[test]
fn position_new_keeps_both_coordinates() {
    let p = Position::new(7, -2);
    assert_eq!(p.x, 7);
    assert_eq!(p.y, -2);
    assert_eq!(p, Position { x: 7, y: -2 });
}

#[test]
fn opposite_directions_pair_up() {
    assert_eq!(-Direction::Left, Direction::Right);
    assert_eq!(-Direction::Right, Direction::Left);
    assert_eq!(-Direction::Up, Direction::Down);
    assert_eq!(-Direction::Down, Direction::Up);
}

#[test]
fn opposite_twice_is_the_direction_itself() {
    for d in [Direction::Left, Direction::Up, Direction::Right, Direction::Down] {
        assert_eq!(-(-d), d);
        assert_ne!(-d, d);
    }
}

#[test]
fn wrapped_lands_on_the_axis() {
    assert_eq!(wrapped(0, 35), 0);
    assert_eq!(wrapped(34, 35), 34);
    assert_eq!(wrapped(35, 35), 0);
    assert_eq!(wrapped(36, 35), 1);
    assert_eq!(wrapped(-1, 35), 34);
    assert_eq!(wrapped(-35, 35), 0);
    assert_eq!(wrapped(-36, 35), 34);
    assert_eq!(wrapped(71, 35), 1);
    assert_eq!(wrapped(i32::MIN, 1), 0);
    assert_eq!(wrapped(i32::MAX, 1), 0);
    assert_eq!(wrapped(i32::MIN, 10), 2);
    assert_eq!(wrapped(i32::MAX, 10), 7);
}

#[test]
fn wrapped_is_in_range_for_many_inputs() {
    for bound in [1, 2, 3, 30, 35] {
        for coord in -100..100 {
            let r = wrapped(coord, bound);
            assert!(0 <= r && r < bound);
            assert_eq!((coord - r) % bound, 0);
        }
    }
}

#[test]
fn step_down_wraps_at_the_low_edge() {
    assert_eq!(step_down(0, 35), 34);
    assert_eq!(step_down(1, 35), 0);
    assert_eq!(step_down(34, 35), 33);
    assert_eq!(step_down(0, 1), 0);
    assert_eq!(step_down(-5, 35), 34);
    assert_eq!(step_down(40, 35), 39);
}

#[test]
fn step_up_wraps_at_the_high_edge() {
    assert_eq!(step_up(34, 35), 0);
    assert_eq!(step_up(33, 35), 34);
    assert_eq!(step_up(0, 35), 1);
    assert_eq!(step_up(0, 1), 0);
    assert_eq!(step_up(40, 35), 0);
    assert_eq!(step_up(-5, 35), -4);
}

#[test]
fn steps_agree_with_wrapped_on_the_axis() {
    for bound in [1, 2, 5, 30, 35] {
        for coord in 0..bound {
            assert_eq!(step_up(coord, bound), wrapped(coord + 1, bound));
            assert_eq!(step_down(coord, bound), wrapped(coord - 1, bound));
        }
    }
}

#[test]
fn grid_new_rejects_an_empty_axis() {
    assert_eq!(Grid::new(35, 30), Some(Grid { width: 35, height: 30 }));
    assert_eq!(Grid::new(1, 1), Some(Grid { width: 1, height: 1 }));
    assert_eq!(Grid::new(0, 30), None);
    assert_eq!(Grid::new(35, 0), None);
    assert_eq!(Grid::new(-3, 4), None);
}

#[test]
fn grid_holds_its_own_cells_only() {
    let grid = Grid { width: 35, height: 30 };
    assert!(grid.holds(Position::new(0, 0)));
    assert!(grid.holds(Position::new(34, 29)));
    assert!(!grid.holds(Position::new(35, 0)));
    assert!(!grid.holds(Position::new(0, 30)));
    assert!(!grid.holds(Position::new(-1, 0)));
    assert!(!grid.holds(Position::new(0, -1)));
}

#[test]
fn wrap_around_left_from_the_low_edge() {
    let grid = Grid { width: 35, height: 30 };
    assert_eq!(grid.neighbor(Position::new(0, 7), Direction::Left), Position::new(34, 7));
    assert_eq!(grid.neighbor(Position::new(34, 7), Direction::Left), Position::new(33, 7));
}

#[test]
fn wrap_around_right_from_the_high_edge() {
    let grid = Grid { width: 35, height: 30 };
    assert_eq!(grid.neighbor(Position::new(34, 7), Direction::Right), Position::new(0, 7));
    assert_eq!(grid.neighbor(Position::new(0, 7), Direction::Right), Position::new(1, 7));
}

#[test]
fn wrap_around_up_from_the_high_edge() {
    let grid = Grid { width: 35, height: 30 };
    assert_eq!(grid.neighbor(Position::new(5, 29), Direction::Up), Position::new(5, 0));
    assert_eq!(grid.neighbor(Position::new(5, 0), Direction::Up), Position::new(5, 1));
}

#[test]
fn wrap_around_down_from_the_low_edge() {
    let grid = Grid { width: 35, height: 30 };
    assert_eq!(grid.neighbor(Position::new(5, 0), Direction::Down), Position::new(5, 29));
    assert_eq!(grid.neighbor(Position::new(5, 29), Direction::Down), Position::new(5, 28));
}

#[test]
fn a_step_inside_the_grid_moves_one_cell() {
    let grid = Grid { width: 35, height: 30 };
    let p = Position::new(10, 10);
    assert_eq!(grid.neighbor(p, Direction::Left), Position::new(9, 10));
    assert_eq!(grid.neighbor(p, Direction::Right), Position::new(11, 10));
    assert_eq!(grid.neighbor(p, Direction::Up), Position::new(10, 11));
    assert_eq!(grid.neighbor(p, Direction::Down), Position::new(10, 9));
}

#[test]
fn every_step_from_every_cell_stays_in_the_grid() {
    let grid = Grid { width: 5, height: 4 };
    for x in 0..5 {
        for y in 0..4 {
            for d in [Direction::Left, Direction::Up, Direction::Right, Direction::Down] {
                let q = grid.neighbor(Position::new(x, y), d);
                assert!(grid.holds(q));
                assert_eq!(grid.neighbor(q, -d), Position::new(x, y));
            }
        }
    }
}

#[test]
fn on_a_grid_of_one_cell_every_step_stays() {
    let grid = Grid { width: 1, height: 1 };
    for d in [Direction::Left, Direction::Up, Direction::Right, Direction::Down] {
        assert_eq!(grid.neighbor(Position::new(0, 0), d), Position::new(0, 0));
    }
}
