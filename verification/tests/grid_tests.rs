use snake_core::grid::{Direction, GRID_SIZE, Position, in_grid_exec, is_opposite};

#[test]
fn opposite_pairs_are_detected() {
    assert!(is_opposite(Direction::Up, Direction::Down));
    assert!(is_opposite(Direction::Down, Direction::Up));
    assert!(is_opposite(Direction::Left, Direction::Right));
    assert!(is_opposite(Direction::Right, Direction::Left));
}

#[test]
fn non_opposite_pairs_are_rejected() {
    assert!(!is_opposite(Direction::Up, Direction::Up));
    assert!(!is_opposite(Direction::Up, Direction::Left));
    assert!(!is_opposite(Direction::Up, Direction::Right));
    assert!(!is_opposite(Direction::Down, Direction::Left));
    assert!(!is_opposite(Direction::Left, Direction::Left));
    assert!(!is_opposite(Direction::Right, Direction::Down));
}

#[test]
fn position_new_keeps_coordinates() {
    let p = Position::new(3, 17);
    assert_eq!(p.x, 3);
    assert_eq!(p.y, 17);
}

#[test]
fn steps_inside_the_grid() {
    assert_eq!(Position::new_by_direction(5, 5, Direction::Right), Position::new(6, 5));
    assert_eq!(Position::new_by_direction(5, 5, Direction::Left), Position::new(4, 5));
    assert_eq!(Position::new_by_direction(5, 5, Direction::Up), Position::new(5, 4));
    assert_eq!(Position::new_by_direction(5, 5, Direction::Down), Position::new(5, 6));
}

#[test]
fn steps_wrap_around_the_edges() {
    assert_eq!(Position::new_by_direction(0, 3, Direction::Left), Position::new(GRID_SIZE - 1, 3));
    assert_eq!(Position::new_by_direction(GRID_SIZE - 1, 3, Direction::Right), Position::new(0, 3));
    assert_eq!(Position::new_by_direction(3, 0, Direction::Up), Position::new(3, GRID_SIZE - 1));
    assert_eq!(Position::new_by_direction(3, GRID_SIZE - 1, Direction::Down), Position::new(3, 0));
}

#[test]
fn in_grid_accepts_cells_and_rejects_outsiders() {
    assert!(in_grid_exec(Position::new(0, 0)));
    assert!(in_grid_exec(Position::new(GRID_SIZE - 1, GRID_SIZE - 1)));
    assert!(!in_grid_exec(Position::new(GRID_SIZE, 5)));
    assert!(!in_grid_exec(Position::new(5, -1)));
}
