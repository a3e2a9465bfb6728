//! The playing field: a square toroidal grid of cells, the four movement
//! directions, and positions that step from cell to cell with wrap-around.

use vstd::prelude::*;

verus! {

/// Width and height of the square playing field, in cells.
pub const GRID_SIZE: i16 = 20;

/// How many cells a position moves in one step.
pub const DEFAULT_ACCEL: i16 = 1;

/// The four ways a snake can face.
#[derive(Copy, Clone, PartialEq, Eq, Structural, Debug)]
pub enum Direction {
    Up,
    Down,
    Left,
    Right,
}

/// Two directions are opposite when following one undoes the other.
pub open spec fn opposite(d1: Direction, d2: Direction) -> bool {
    match (d1, d2) {
        (Direction::Up, Direction::Down) => true,
        (Direction::Down, Direction::Up) => true,
        (Direction::Left, Direction::Right) => true,
        (Direction::Right, Direction::Left) => true,
        _ => false,
    }
}

pub fn is_opposite(d1: Direction, d2: Direction) -> (r: bool)
    ensures
        r == opposite(d1, d2),
{
    match (d1, d2) {
        (Direction::Up, Direction::Down)
        | (Direction::Down, Direction::Up)
        | (Direction::Left, Direction::Right)
        | (Direction::Right, Direction::Left) => true,
        _ => false,
    }
}

/// A cell of the grid.
#[derive(Copy, Clone, PartialEq, Eq, Structural, Debug)]
pub struct Position {
    pub x: i16,
    pub y: i16,
}

/// A coordinate lies on the grid when it is within `0 .. GRID_SIZE`.
pub open spec fn in_grid(p: Position) -> bool {
    &&& 0 <= p.x < GRID_SIZE as int
    &&& 0 <= p.y < GRID_SIZE as int
}

/// Whether `p` lies on the grid.
pub fn in_grid_exec(p: Position) -> (r: bool)
    ensures
        r == in_grid(p),
{
    0 <= p.x && p.x < GRID_SIZE && 0 <= p.y && p.y < GRID_SIZE
}

/// Wrap-around for a coordinate that has moved at most one step off the grid:
/// past the low edge it reappears at the high edge, and past the high edge at
/// the low edge.
pub open spec fn wrap(v: int) -> int {
    if v < 0 {
        GRID_SIZE as int - 1
    } else if v >= GRID_SIZE as int {
        0
    } else {
        v
    }
}

/// The coordinates one step from `(x, y)` in direction `d`, before wrapping.
pub open spec fn moved_x(x: int, d: Direction) -> int {
    match d {
        Direction::Up => x,
        Direction::Down => x,
        Direction::Left => x - DEFAULT_ACCEL as int,
        Direction::Right => x + DEFAULT_ACCEL as int,
    }
}

pub open spec fn moved_y(y: int, d: Direction) -> int {
    match d {
        Direction::Up => y - DEFAULT_ACCEL as int,
        Direction::Down => y + DEFAULT_ACCEL as int,
        Direction::Left => y,
        Direction::Right => y,
    }
}

/// The cell one step from `p` in direction `d`, with wrap-around.
pub open spec fn step(p: Position, d: Direction) -> Position {
    Position {
        x: wrap(moved_x(p.x as int, d)) as i16,
        y: wrap(moved_y(p.y as int, d)) as i16,
    }
}

/// Stepping from `p` in direction `d` stays within the `i16` range.
pub open spec fn can_step(p: Position, d: Direction) -> bool {
    match d {
        Direction::Up => p.y > i16::MIN,
        Direction::Down => p.y < i16::MAX,
        Direction::Left => p.x > i16::MIN,
        Direction::Right => p.x < i16::MAX,
    }
}

impl Position {
    pub fn new(x: i16, y: i16) -> (p: Position)
        ensures
            p.x == x,
            p.y == y,
    {
        Position { x, y }
    }

    /// The cell one step from `(x, y)` in `direction`, wrapping around the
    /// edges of the grid.
    pub fn new_by_direction(x: i16, y: i16, direction: Direction) -> (p: Position)
        requires
            can_step(Position { x, y }, direction),
        ensures
            p == step(Position { x, y }, direction),
            in_grid(p),
    {
        let accel: i16 = DEFAULT_ACCEL;

        let (mut x, mut y): (i16, i16) = match direction {
            Direction::Up => (x, y - accel),
            Direction::Down => (x, y + accel),
            Direction::Left => (x - accel, y),
            Direction::Right => (x + accel, y),
        };

        if x < 0 {
            x = GRID_SIZE - 1;
        } else if x >= GRID_SIZE {
            x = 0;
        }

        if y < 0 {
            y = GRID_SIZE - 1;
        } else if y >= GRID_SIZE {
            y = 0;
        }

        Position { x, y }
    }
}

} // verus!
