//! The two actors of the game, plus the rocket record that the firing
//! mechanic would use: plain position-and-direction records.  Entities
//! hold no behaviour of their own; all motion is performed by the game
//! update logic.

use vstd::prelude::*;

use crate::board::Dir;
use crate::board::Position;
use crate::board::HEIGHT;
use crate::board::WIDTH;

verus! {

/// The player-controlled actor.  `dx` is a per-tick horizontal delta
/// kept below the board width; nothing ever sets it, so it stays 0 and
/// the cannon moves only on key events.
#[derive(Debug, Copy, Clone, PartialEq, Eq, Structural)]
pub struct Cannon {
    pub cannon: char,
    pub pos: Position,
    pub dx: usize,
}

impl Cannon {
    pub open spec fn wf(&self) -> bool {
        &&& self.dx < WIDTH
        &&& 0 <= self.pos.row < HEIGHT
    }

    pub open spec fn spec_new() -> Cannon {
        Cannon {
            cannon: '^',
            pos: Position { col: (WIDTH / 2) as i16, row: (HEIGHT - 1) as i16 },
            dx: 0,
        }
    }

    /// A cannon at the bottom center of the board, not yet moving.
    pub fn new() -> (c: Cannon)
        ensures
            c == Cannon::spec_new(),
            c.wf(),
    {
        Cannon {
            cannon: '^',
            pos: Position { col: (WIDTH / 2) as i16, row: (HEIGHT - 1) as i16 },
            dx: 0,
        }
    }
}

/// One falling target.  Nothing ever changes its direction or its
/// active flag after creation; the game moves it by rewriting its
/// position during the fall step.
#[derive(Debug, Copy, Clone, PartialEq, Eq, Structural)]
pub struct Chicken {
    pub pos: Position,
    pub dir: Dir,
    pub active: bool,
}

impl Chicken {
    pub open spec fn spec_new(position: Position) -> Chicken {
        Chicken { pos: position, dir: Dir::S, active: true }
    }

    /// A chicken at `position`, falling south and active.
    pub fn new(position: Position) -> (c: Chicken)
        ensures
            c == Chicken::spec_new(position),
    {
        Chicken { pos: position, dir: Dir::S, active: true }
    }
}

/// One projectile record for the firing mechanic the space bar is
/// reserved for: created inactive, pointing north, never launched.
#[derive(Debug, Copy, Clone, PartialEq, Eq, Structural)]
pub struct Rockets {
    pub pos: Position,
    pub dir: Dir,
    pub active: bool,
}

impl Rockets {
    pub open spec fn spec_new(position: Position) -> Rockets {
        Rockets { pos: position, dir: Dir::N, active: false }
    }

    /// A rocket at `position`, pointing north and inactive until a
    /// keypress would launch it.
    pub fn new(position: Position) -> (r: Rockets)
        ensures
            r == Rockets::spec_new(position),
    {
        Rockets { pos: position, dir: Dir::N, active: false }
    }
}

} // verus!
