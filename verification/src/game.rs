//! The game state: one snake, one fruit, and a small tick counter that slows
//! the snake down to one move per ten frames. Steering and the per-frame
//! transition live here; the event loop that drives them does not.

use vstd::prelude::*;
use crate::grid::{Direction, Position, in_grid, in_grid_exec, is_opposite, opposite, step};
use crate::snake::{Snake, SnakeState, next_body, next_state};
use crate::fruit::Fruit;

verus! {

/// Where the snake starts.
pub const SNAKE_INIT_X: i16 = 5;
pub const SNAKE_INIT_Y: i16 = 5;

/// Where the fruit starts.
pub const FRUIT_INIT_X: i16 = 10;
pub const FRUIT_INIT_Y: i16 = 10;

/// The snake moves once every this many frames.
pub const FRAMES_PER_MOVE: u32 = 10;

pub struct Game {
    pub snake: Snake,
    pub fruit: Fruit,
    pub x: u32,
}

/// The snake's cells after a self-collision is handled: the body is dropped.
pub open spec fn body_before_update(s: Snake) -> Seq<Position> {
    if s.state == Some(SnakeState::SelfCollision) {
        Seq::<Position>::empty()
    } else {
        s.body@
    }
}

impl Game {
    /// Every cell in play lies on the grid, and the frame counter is within
    /// its cycle.
    pub open spec fn wf(self) -> bool {
        &&& self.x < FRAMES_PER_MOVE
        &&& in_grid(self.snake.head)
        &&& forall|i: int| 0 <= i < self.snake.body@.len() ==> in_grid(#[trigger] self.snake.body@[i])
        &&& in_grid(self.fruit.pos)
    }

    pub fn new() -> (g: Game)
        ensures
            g.wf(),
            g.snake.head == (Position { x: SNAKE_INIT_X, y: SNAKE_INIT_Y }),
            g.snake.body@.len() == 0,
            g.snake.direction == Direction::Right,
            g.snake.state is None,
            g.fruit.pos == (Position { x: FRUIT_INIT_X, y: FRUIT_INIT_Y }),
            g.x == 0,
    {
        Game {
            snake: Snake::new(SNAKE_INIT_X, SNAKE_INIT_Y),
            fruit: Fruit::new(FRUIT_INIT_X, FRUIT_INIT_Y),
            x: 0,
        }
    }

    /// Whether the state is well formed; unverified callers check this before
    /// driving the game.
    pub fn is_wf(&self) -> (r: bool)
        ensures
            r == self.wf(),
    {
        if self.x >= FRAMES_PER_MOVE {
            return false;
        }
        if !in_grid_exec(self.snake.head) {
            return false;
        }
        if !in_grid_exec(self.fruit.pos) {
            return false;
        }
        let mut i: usize = 0;
        while i < self.snake.body.len()
            invariant
                i <= self.snake.body@.len(),
                forall|j: int| 0 <= j < i ==> in_grid(#[trigger] self.snake.body@[j]),
            decreases self.snake.body@.len() - i,
        {
            if !in_grid_exec(self.snake.body[i]) {
                return false;
            }
            i = i + 1;
        }
        true
    }

    /// One frame. The counter advances; on every `FRAMES_PER_MOVE`th frame the
    /// last tick's outcome is settled (a new fruit after eating, a fresh body
    /// after a self-collision) and the snake moves once. On all other frames
    /// nothing else changes.
    pub fn tick(&mut self)
        requires
            old(self).wf(),
        ensures
            final(self).wf(),
            final(self).x == (old(self).x + 1) % (FRAMES_PER_MOVE as int),
            final(self).snake.direction == old(self).snake.direction,
            final(self).x != 0 ==> {
                &&& final(self).snake.head == old(self).snake.head
                &&& final(self).snake.body@ == old(self).snake.body@
                &&& final(self).snake.state == old(self).snake.state
                &&& final(self).fruit.pos == old(self).fruit.pos
            },
            final(self).x == 0 ==> {
                &&& (old(self).snake.state == Some(SnakeState::AteFruit) ==> in_grid(
                    final(self).fruit.pos,
                ))
                &&& (old(self).snake.state != Some(SnakeState::AteFruit)
                    ==> final(self).fruit.pos == old(self).fruit.pos)
                &&& final(self).snake.head == step(
                    old(self).snake.head,
                    old(self).snake.direction,
                )
                &&& final(self).snake.body@ == next_body(
                    old(self).snake.head,
                    body_before_update(old(self).snake),
                    old(self).snake.direction,
                    final(self).fruit.pos,
                )
                &&& final(self).snake.state == next_state(
                    old(self).snake.head,
                    body_before_update(old(self).snake),
                    old(self).snake.direction,
                    final(self).fruit.pos,
                )
            },
    {
        self.x = (self.x + 1) % FRAMES_PER_MOVE;
        if self.x == 0 {
            match self.snake.state {
                Some(SnakeState::AteFruit) => self.fruit.regenerate(),
                Some(SnakeState::SelfCollision) => self.snake.reset(),
                _ => (),
            }
            self.snake.update(&self.fruit);
        }
    }

    /// Steer the snake. A turn straight back first flips the body under the
    /// head; either way the snake then faces the given direction.
    pub fn key_direction(&mut self, direction: Direction)
        requires
            old(self).wf(),
        ensures
            final(self).wf(),
            final(self).snake.direction == direction,
            final(self).snake.head == old(self).snake.head,
            opposite(direction, old(self).snake.direction)
                ==> final(self).snake.body@ == old(self).snake.body@.reverse(),
            !opposite(direction, old(self).snake.direction)
                ==> final(self).snake.body@ == old(self).snake.body@,
            final(self).snake.state == old(self).snake.state,
            final(self).fruit.pos == old(self).fruit.pos,
            final(self).x == old(self).x,
    {
        if is_opposite(direction, self.snake.direction) {
            self.snake.reverse();
        }
        self.snake.direction = direction;
    }
}

} // verus!
