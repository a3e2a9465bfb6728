//! The fruit: a single cell of the grid, moved to a fresh pseudo-random cell
//! each time the snake eats it.

use vstd::prelude::*;
use crate::grid::{GRID_SIZE, Position, in_grid};
use crate::rng::gen_below;

verus! {

pub struct Fruit {
    pub pos: Position,
}

impl Fruit {
    pub fn new(x: i16, y: i16) -> (f: Fruit)
        ensures
            f.pos.x == x,
            f.pos.y == y,
    {
        Fruit { pos: Position::new(x, y) }
    }

    /// Move the fruit to a pseudo-random cell of the grid. Nothing more is
    /// promised of where it lands.
    pub fn regenerate(&mut self)
        ensures
            in_grid(final(self).pos),
    {
        let mut rng = rand::thread_rng();

        let x: i16 = gen_below(&mut rng, GRID_SIZE);
        let y: i16 = gen_below(&mut rng, GRID_SIZE);

        self.pos = Position::new(x, y);
    }
}

} // verus!
