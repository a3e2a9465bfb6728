//! The snake: a head cell, an ordered body behind it, and a facing direction.
//! Each update advances the head one cell and either grows on the fruit,
//! stops on a self-collision, or drags the tail along.

use vstd::prelude::*;
use crate::grid::{Direction, Position, step, can_step};
use crate::fruit::Fruit;

verus! {

/// What the last update ran into, if anything.
#[derive(Copy, Clone, PartialEq, Eq, Structural, Debug)]
pub enum SnakeState {
    AteFruit,
    SelfCollision,
}

pub struct Snake {
    pub head: Position,
    pub body: Vec<Position>,
    pub direction: Direction,
    pub state: Option<SnakeState>,
}

/// The body after the head advances: the old head becomes the first segment.
pub open spec fn grown(head: Position, body: Seq<Position>) -> Seq<Position> {
    seq![head] + body
}

/// The body after one update: it keeps the old head in front and, unless the
/// new head landed on the fruit, loses its last cell, so the body grows only
/// when the fruit is eaten.
pub open spec fn next_body(
    head: Position,
    body: Seq<Position>,
    d: Direction,
    fruit: Position,
) -> Seq<Position> {
    let g = grown(head, body);
    let h = step(head, d);
    if h == fruit {
        g
    } else {
        g.drop_last()
    }
}

/// What one update runs into: the fruit, the snake's own cells, or nothing.
pub open spec fn next_state(
    head: Position,
    body: Seq<Position>,
    d: Direction,
    fruit: Position,
) -> Option<SnakeState> {
    let g = grown(head, body);
    let h = step(head, d);
    if h == fruit {
        Some(SnakeState::AteFruit)
    } else if g.contains(h) {
        Some(SnakeState::SelfCollision)
    } else {
        None::<SnakeState>
    }
}

impl Snake {
    /// A snake of a single cell at `(x, y)`, facing right.
    pub fn new(x: i16, y: i16) -> (s: Snake)
        ensures
            s.head.x == x,
            s.head.y == y,
            s.body@.len() == 0,
            s.direction == Direction::Right,
            s.state is None,
    {
        let direction = Direction::Right;
        let body = Vec::<Position>::new();

        Snake { head: Position::new(x, y), state: None, body, direction }
    }

    /// Turn the snake back on itself: the body order flips, the head stays.
    pub fn reverse(&mut self)
        ensures
            final(self).head == old(self).head,
            final(self).body@ == old(self).body@.reverse(),
            final(self).direction == old(self).direction,
            final(self).state == old(self).state,
    {
        let n: usize = self.body.len();
        let mut reversed: Vec<Position> = Vec::new();
        let mut i: usize = n;
        while i > 0
            invariant
                i <= n,
                n == self.body@.len(),
                self.body@ == old(self).body@,
                self.head == old(self).head,
                self.direction == old(self).direction,
                self.state == old(self).state,
                reversed@.len() == n - i,
                forall|j: int|
                    0 <= j < reversed@.len() ==> reversed@[j] == self.body@[n - 1 - j],
            decreases i,
        {
            i = i - 1;
            let p = self.body[i];
            reversed.push(p);
        }
        self.body = reversed;
        proof {
            assert(self.body@ =~= old(self).body@.reverse());
        }
    }

    /// Shrink the snake back to its head alone.
    pub fn reset(&mut self)
        ensures
            final(self).head == old(self).head,
            final(self).body@.len() == 0,
            final(self).direction == old(self).direction,
            final(self).state == old(self).state,
    {
        self.body = Vec::new()
    }

    /// Whether the head sits on one of the body's cells.
    pub fn self_collision(&self) -> (r: bool)
        ensures
            r == self.body@.contains(self.head),
    {
        let mut i: usize = 0;
        while i < self.body.len()
            invariant
                i <= self.body@.len(),
                forall|j: int| 0 <= j < i ==> self.body@[j] != self.head,
            decreases self.body@.len() - i,
        {
            if self.head == self.body[i] {
                return true;
            }
            i = i + 1;
        }
        false
    }

    /// One tick of movement: the head advances one cell with wrap-around, the
    /// old head joins the body, and the state records whether the new head
    /// landed on the fruit or on the snake itself; unless the fruit was eaten
    /// the tail cell is dropped, so only eating makes the body grow.
    pub fn update(&mut self, fruit: &Fruit)
        requires
            can_step(old(self).head, old(self).direction),
        ensures
            final(self).head == step(old(self).head, old(self).direction),
            final(self).body@ == next_body(
                old(self).head,
                old(self).body@,
                old(self).direction,
                fruit.pos,
            ),
            final(self).state == next_state(
                old(self).head,
                old(self).body@,
                old(self).direction,
                fruit.pos,
            ),
            final(self).direction == old(self).direction,
    {
        let new_head = Position::new_by_direction(self.head.x, self.head.y, self.direction);
        self.body.insert(0, self.head);
        self.head = new_head;

        proof {
            assert(self.body@ =~= grown(old(self).head, old(self).body@));
        }

        if self.head == fruit.pos {
            self.state = Some(SnakeState::AteFruit);
        } else {
            if self.self_collision() {
                self.state = Some(SnakeState::SelfCollision);
            } else {
                self.state = None;
            }
            self.body.pop();
            proof {
                assert(self.body@ =~= grown(old(self).head, old(self).body@).drop_last());
            }
        }
    }
}

} // verus!
