//! The fixed character-cell board: its dimensions, the cell annotation
//! layer, compass directions, and positions on (or transiently off) the
//! board.

use vstd::prelude::*;

verus! {

/// Number of character columns on the display.
pub const WIDTH: usize = 80;

/// Number of character rows on the display.
pub const HEIGHT: usize = 25;

/// Occupancy tag for one grid cell.  The grid of cells is an annotation
/// layer only: the update logic never consults it.
#[derive(Debug, Copy, Clone, PartialEq, Eq, Structural)]
pub enum Cell {
    Empty,
    Chicken,
    CannonZone,
}

/// A compass direction on the board.  Row numbers grow southward, column
/// numbers grow eastward.
#[derive(Debug, Copy, Clone, PartialEq, Eq, Structural)]
pub enum Dir {
    N,
    S,
    E,
    W,
}

impl Dir {
    /// The opposite direction.
    pub fn reverse(&self) -> (d: Dir)
        ensures
            d == self.spec_reverse(),
    {
        match self {
            Dir::N => Dir::S,
            Dir::S => Dir::N,
            Dir::E => Dir::W,
            Dir::W => Dir::E,
        }
    }

    pub open spec fn spec_reverse(&self) -> Dir {
        match self {
            Dir::N => Dir::S,
            Dir::S => Dir::N,
            Dir::E => Dir::W,
            Dir::W => Dir::E,
        }
    }

    /// The direction after a 90-degree turn counterclockwise.
    pub fn left(&self) -> (d: Dir)
        ensures
            d == self.spec_left(),
    {
        match self {
            Dir::N => Dir::W,
            Dir::W => Dir::S,
            Dir::S => Dir::E,
            Dir::E => Dir::N,
        }
    }

    pub open spec fn spec_left(&self) -> Dir {
        match self {
            Dir::N => Dir::W,
            Dir::W => Dir::S,
            Dir::S => Dir::E,
            Dir::E => Dir::N,
        }
    }

    /// The direction after a 90-degree turn clockwise.
    pub fn right(&self) -> (d: Dir)
        ensures
            d == self.spec_left().spec_reverse(),
    {
        match self {
            Dir::N => Dir::E,
            Dir::E => Dir::S,
            Dir::S => Dir::W,
            Dir::W => Dir::N,
        }
    }
}

/// A coordinate pair.  A position may stand off the board transiently
/// (the cannon can be pushed one step past an edge between ticks); only
/// legal positions are ever drawn.
#[derive(Debug, Copy, Clone, PartialEq, Eq, Structural)]
pub struct Position {
    pub col: i16,
    pub row: i16,
}

impl Position {
    /// Whether the position lies on the board.
    pub fn is_legal(&self) -> (b: bool)
        ensures
            b == self.spec_is_legal(),
    {
        0 <= self.col && self.col < WIDTH as i16 && 0 <= self.row && self.row < HEIGHT as i16
    }

    pub open spec fn spec_is_legal(&self) -> bool {
        0 <= self.col < WIDTH && 0 <= self.row < HEIGHT
    }

    /// The position in zero-based (row, column) array-index form.
    pub fn row_col(&self) -> (rc: (usize, usize))
        requires
            self.spec_is_legal(),
        ensures
            rc.0 == self.row,
            rc.1 == self.col,
    {
        (self.row as usize, self.col as usize)
    }

    /// The adjacent position one step along `dir`, without any bounds
    /// check: callers must test `is_legal` before drawing or storing
    /// the result.
    pub fn neighbor(&self, dir: Dir) -> (p: Position)
        requires
            i16::MIN < self.col < i16::MAX,
            i16::MIN < self.row < i16::MAX,
        ensures
            p == self.spec_neighbor(dir),
    {
        match dir {
            Dir::N => Position { col: self.col, row: self.row - 1 },
            Dir::S => Position { col: self.col, row: self.row + 1 },
            Dir::E => Position { col: self.col + 1, row: self.row },
            Dir::W => Position { col: self.col - 1, row: self.row },
        }
    }

    pub open spec fn spec_neighbor(&self, dir: Dir) -> Position {
        match dir {
            Dir::N => Position { col: self.col, row: (self.row - 1) as i16 },
            Dir::S => Position { col: self.col, row: (self.row + 1) as i16 },
            Dir::E => Position { col: (self.col + 1) as i16, row: self.row },
            Dir::W => Position { col: (self.col - 1) as i16, row: self.row },
        }
    }
}

/// Walks every board position in row-major order, one position per call.
pub struct RowColIter {
    pub row: usize,
    pub col: usize,
}

impl RowColIter {
    /// How many positions have been handed out so far.
    pub open spec fn progress(&self) -> int {
        self.row * WIDTH + self.col
    }

    pub open spec fn wf(&self) -> bool {
        self.col < WIDTH && self.row <= HEIGHT && (self.row == HEIGHT ==> self.col == 0)
    }

    pub fn new() -> (it: RowColIter)
        ensures
            it.wf(),
            it.progress() == 0,
    {
        RowColIter { row: 0, col: 0 }
    }

    /// The next position in row-major order, or `None` once every
    /// position has been produced.
    pub fn next(&mut self) -> (p: Option<Position>)
        requires
            old(self).wf(),
        ensures
            final(self).wf(),
            old(self).row < HEIGHT ==> p == Some(
                Position { row: old(self).row as i16, col: old(self).col as i16 },
            ) && final(self).progress() == old(self).progress() + 1,
            old(self).row >= HEIGHT ==> p is None && *final(self) == *old(self),
    {
        if self.row < HEIGHT {
            let result = Some(Position { row: self.row as i16, col: self.col as i16 });
            self.col += 1;
            if self.col == WIDTH {
                self.col = 0;
                self.row += 1;
            }
            result
        } else {
            None
        }
    }
}

} // verus!
