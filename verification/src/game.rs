//! The game state machine: one cannon, a dense grid of chicken records,
//! a countdown that throttles the fall step, and the per-tick update and
//! render logic.  Rendering is returned as plain plot commands; a display
//! driver outside the library executes them.

use vstd::prelude::*;

use crate::board::Cell;
use crate::board::Position;
use crate::board::HEIGHT;
use crate::board::WIDTH;
use crate::entities::Cannon;
use crate::entities::Chicken;
use crate::input::KeyEvent;
use crate::input::RawKey;

verus! {

/// Number of ticks between two fall steps: the countdown is reloaded to
/// this value each time it reaches zero.
pub const UPDATE_FREQUENCY: usize = 3;

/// Play state.  `Over` is a terminal display state: no update ever
/// enters it, and the reset key is the only way out of it.
#[derive(Debug, Copy, Clone, PartialEq, Eq, Structural)]
pub enum Status {
    Normal,
    Over,
}

/// The palette the game draws with.
#[derive(Debug, Copy, Clone, PartialEq, Eq, Structural)]
pub enum GlyphColor {
    Black,
    Red,
    Cyan,
}

/// One render call: paint `ch` at (`col`, `row`) in the given colors.
#[derive(Debug, Copy, Clone, PartialEq, Eq, Structural)]
pub struct PlotCmd {
    pub ch: char,
    pub col: usize,
    pub row: usize,
    pub fg: GlyphColor,
    pub bg: GlyphColor,
}

/// The mathematical state of a game: the same fields as `Game`, with
/// the two grids as sequences of rows.
#[verifier::ext_equal]
pub struct GameModel {
    pub cannon: Cannon,
    pub chickens: Seq<Seq<Chicken>>,
    pub col: int,
    pub row: int,
    pub cells: Seq<Seq<Cell>>,
    pub countdown: int,
    pub status: Status,
    pub score: int,
}

impl GameModel {
    /// Well-formedness: both grids have the board's dimensions, the
    /// cursors lie on the board, the countdown never exceeds its reload
    /// value, and the cannon's row is on the board.  The cannon's
    /// column is deliberately unconstrained: a key event may push it
    /// one step off the board until the next tick wraps it back.
    pub open spec fn wf(self) -> bool {
        &&& self.cannon.wf()
        &&& self.chickens.len() == HEIGHT
        &&& forall|r: int| 0 <= r < HEIGHT ==> (#[trigger] self.chickens[r]).len() == WIDTH
        &&& self.cells.len() == HEIGHT
        &&& forall|r: int| 0 <= r < HEIGHT ==> (#[trigger] self.cells[r]).len() == WIDTH
        &&& 0 <= self.col < WIDTH
        &&& 0 <= self.row < HEIGHT
        &&& 0 <= self.countdown <= UPDATE_FREQUENCY
    }
}

/// The column the cannon ends the update step on: its column plus its
/// per-tick delta, wrapped back onto the board at either edge.
pub open spec fn wrap_col(col: int, dx: int) -> int {
    if col + dx >= WIDTH {
        0
    } else if col + dx < 0 {
        WIDTH - 1
    } else {
        col + dx
    }
}

/// The update step of a tick: only the cannon's column changes.
pub open spec fn update_location_spec(g: GameModel) -> GameModel {
    GameModel {
        cannon: Cannon {
            pos: Position {
                col: wrap_col(g.cannon.pos.col as int, g.cannon.dx as int) as i16,
                row: g.cannon.pos.row,
            },
            ..g.cannon
        },
        ..g
    }
}

/// The sweep row after the spawn step: every column that is a multiple
/// of 3 holds a fresh chicken at that column and row; every other
/// column keeps its record.
pub open spec fn spawn_row_spec(old_row: Seq<Chicken>, row: int) -> Seq<Chicken> {
    Seq::new(
        WIDTH as nat,
        |c: int|
            if c % 3 == 0 {
                Chicken::spec_new(Position { col: c as i16, row: row as i16 })
            } else {
                old_row[c]
            },
    )
}

/// The spawn step of a tick: only the sweep row of the chicken grid
/// changes.
pub open spec fn spawn_spec(g: GameModel) -> GameModel {
    GameModel { chickens: g.chickens.update(g.row, spawn_row_spec(g.chickens[g.row], g.row)), ..g }
}

/// Whether a countdown value completes (triggers a fall step) on the
/// call that observes it.
pub open spec fn completes(countdown: int) -> bool {
    countdown == 0
}

/// The countdown after one call: reloaded when it reached zero,
/// decremented otherwise.
pub open spec fn countdown_step(countdown: int) -> int {
    if countdown == 0 {
        UPDATE_FREQUENCY as int
    } else {
        countdown - 1
    }
}

/// One chicken after a fall step: its row decreases by exactly one and
/// its column is untouched.  At the bottom of the machine integer range
/// the row wraps, as two's-complement arithmetic would.
pub open spec fn fall_chicken(ch: Chicken) -> Chicken {
    Chicken {
        pos: Position {
            col: ch.pos.col,
            row: if ch.pos.row == i16::MIN {
                i16::MAX
            } else {
                (ch.pos.row - 1) as i16
            },
        },
        ..ch
    }
}

/// The chicken grid after a fall step: every record falls one row.
pub open spec fn fall_spec(chickens: Seq<Seq<Chicken>>) -> Seq<Seq<Chicken>> {
    Seq::new(chickens.len(), |r: int| Seq::new(chickens[r].len(), |c: int| fall_chicken(chickens[r][c])))
}

/// The draw phase of a tick: spawn chickens along the sweep row, step
/// the countdown, and, when the countdown had completed, let every
/// chicken fall one row.
pub open spec fn draw_spec(g: GameModel) -> GameModel {
    let spawned = spawn_spec(g);
    let counted = GameModel { countdown: countdown_step(spawned.countdown), ..spawned };
    if completes(spawned.countdown) {
        GameModel { chickens: fall_spec(counted.chickens), ..counted }
    } else {
        counted
    }
}

/// A whole tick: the update step, then the draw phase.
pub open spec fn tick_spec(g: GameModel) -> GameModel {
    draw_spec(update_location_spec(g))
}

/// A reset: back to play state with a zero score; nothing else changes.
pub open spec fn reset_spec(g: GameModel) -> GameModel {
    GameModel { status: Status::Normal, score: 0, ..g }
}

/// The keys that reset a finished game.
pub open spec fn is_reset(e: KeyEvent) -> bool {
    e == KeyEvent::RawKey(RawKey::S) || e == KeyEvent::Unicode('s')
}

/// The cannon's column after a left or right key, one step with wrap at
/// the machine integer range (the board wrap is deferred to the next
/// tick).
pub open spec fn dec_col(c: i16) -> i16 {
    if c == i16::MIN {
        i16::MAX
    } else {
        (c - 1) as i16
    }
}

pub open spec fn inc_col(c: i16) -> i16 {
    if c == i16::MAX {
        i16::MIN
    } else {
        (c + 1) as i16
    }
}

/// A raw key: the arrow keys move the cannon's column one step; the
/// space bar is reserved for firing and does nothing; every other raw
/// key is ignored.
pub open spec fn handle_raw_spec(g: GameModel, key: RawKey) -> GameModel {
    match key {
        RawKey::ArrowLeft => GameModel {
            cannon: Cannon {
                pos: Position { col: dec_col(g.cannon.pos.col), row: g.cannon.pos.row },
                ..g.cannon
            },
            ..g
        },
        RawKey::ArrowRight => GameModel {
            cannon: Cannon {
                pos: Position { col: inc_col(g.cannon.pos.col), row: g.cannon.pos.row },
                ..g.cannon
            },
            ..g
        },
        _ => g,
    }
}

/// A whole key event: when the game is over and the key is a reset key
/// the game resets; then any raw key is handled as `handle_raw_spec`
/// says, and any other decoded character is ignored.
pub open spec fn key_step(g: GameModel, e: KeyEvent) -> GameModel {
    let after_reset = if g.status == Status::Over && is_reset(e) {
        reset_spec(g)
    } else {
        g
    };
    match e {
        KeyEvent::RawKey(code) => handle_raw_spec(after_reset, code),
        KeyEvent::Unicode(_) => after_reset,
    }
}

/// A blank glyph painting the background over (`col`, `row`).
pub open spec fn blank_cmd(col: int, row: int) -> PlotCmd {
    PlotCmd { ch: ' ', col: col as usize, row: row as usize, fg: GlyphColor::Black, bg: GlyphColor::Black }
}

/// A chicken glyph at (`col`, `row`).
pub open spec fn chicken_cmd(col: int, row: int) -> PlotCmd {
    PlotCmd { ch: '&', col: col as usize, row: row as usize, fg: GlyphColor::Red, bg: GlyphColor::Black }
}

/// The cannon glyph at the cannon's position.
pub open spec fn cannon_cmd(g: GameModel) -> PlotCmd {
    PlotCmd {
        ch: '^',
        col: g.cannon.pos.col as usize,
        row: g.cannon.pos.row as usize,
        fg: GlyphColor::Cyan,
        bg: GlyphColor::Black,
    }
}

/// The first `n` steps of the clear phase: the column cursor sweeps the
/// board once starting at `g.col`, blanking each visited column on both
/// the sweep row and the cannon's row.
pub open spec fn clear_cmds_upto(g: GameModel, n: int) -> Seq<PlotCmd>
    decreases n,
{
    if n <= 0 {
        Seq::empty()
    } else {
        clear_cmds_upto(g, n - 1) + seq![
            blank_cmd((g.col + (n - 1)) % (WIDTH as int), g.row),
            blank_cmd((g.col + (n - 1)) % (WIDTH as int), g.cannon.pos.row as int),
        ]
    }
}

/// Every clear command of one tick.
pub open spec fn clear_cmds(g: GameModel) -> Seq<PlotCmd> {
    clear_cmds_upto(g, WIDTH as int)
}

/// The first `n` steps of the spawn sweep: a chicken glyph on the sweep
/// row at every visited column that is a multiple of 3.
pub open spec fn spawn_cmds_upto(g: GameModel, n: int) -> Seq<PlotCmd>
    decreases n,
{
    if n <= 0 {
        Seq::empty()
    } else {
        let x = (g.col + (n - 1)) % (WIDTH as int);
        spawn_cmds_upto(g, n - 1) + if x % 3 == 0 {
            seq![chicken_cmd(x, g.row)]
        } else {
            Seq::empty()
        }
    }
}

/// Every draw command of one tick: the spawn sweep's chicken glyphs,
/// then the cannon at its updated position.
pub open spec fn draw_cmds(g: GameModel) -> Seq<PlotCmd> {
    spawn_cmds_upto(g, WIDTH as int) + seq![cannon_cmd(g)]
}

/// Every render command of one tick, in order: the clear phase over the
/// old state, then the draw phase over the updated state.
pub open spec fn tick_cmds(g: GameModel) -> Seq<PlotCmd> {
    clear_cmds(g) + draw_cmds(update_location_spec(g))
}

/// The aggregate game state.
pub struct Game {
    pub cannon: Cannon,
    pub chickens: Vec<Vec<Chicken>>,
    pub col: usize,
    pub row: usize,
    pub cells: Vec<Vec<Cell>>,
    pub countdown: usize,
    pub status: Status,
    pub score: u16,
}

impl View for Game {
    type V = GameModel;

    open spec fn view(&self) -> GameModel {
        GameModel {
            cannon: self.cannon,
            chickens: self.chickens@.map_values(|r: Vec<Chicken>| r@),
            col: self.col as int,
            row: self.row as int,
            cells: self.cells@.map_values(|r: Vec<Cell>| r@),
            countdown: self.countdown as int,
            status: self.status,
            score: self.score as int,
        }
    }
}

/// The state a fresh game starts in: cannon at bottom center, every
/// chicken record at the origin, both cursors at zero, an empty cell
/// grid, a full countdown, play status, and a zero score.
pub open spec fn initial_model() -> GameModel {
    GameModel {
        cannon: Cannon::spec_new(),
        chickens: Seq::new(
            HEIGHT as nat,
            |r: int| Seq::new(WIDTH as nat, |c: int| Chicken::spec_new(Position { col: 0, row: 0 })),
        ),
        col: 0,
        row: 0,
        cells: Seq::new(HEIGHT as nat, |r: int| Seq::new(WIDTH as nat, |c: int| Cell::Empty)),
        countdown: UPDATE_FREQUENCY as int,
        status: Status::Normal,
        score: 0,
    }
}

impl Game {
    /// A fresh game in the initial state.
    pub fn new() -> (game: Game)
        ensures
            game@ == initial_model(),
            game@.wf(),
    {
        let mut chickens: Vec<Vec<Chicken>> = Vec::new();
        let mut cells: Vec<Vec<Cell>> = Vec::new();
        let mut r: usize = 0;
        while r < HEIGHT
            invariant
                chickens@.len() == r,
                cells@.len() == r,
                r <= HEIGHT,
                forall|i: int| 0 <= i < r ==> (#[trigger] chickens@[i])@ == initial_model().chickens[i],
                forall|i: int| 0 <= i < r ==> (#[trigger] cells@[i])@ == initial_model().cells[i],
            decreases HEIGHT - r,
        {
            let mut chicken_row: Vec<Chicken> = Vec::new();
            let mut cell_row: Vec<Cell> = Vec::new();
            let mut c: usize = 0;
            while c < WIDTH
                invariant
                    chicken_row@.len() == c,
                    cell_row@.len() == c,
                    c <= WIDTH,
                    forall|j: int| 0 <= j < c ==> chicken_row@[j] == Chicken::spec_new(
                        Position { col: 0, row: 0 },
                    ),
                    forall|j: int| 0 <= j < c ==> cell_row@[j] == Cell::Empty,
                decreases WIDTH - c,
            {
                chicken_row.push(Chicken::new(Position { col: 0, row: 0 }));
                cell_row.push(Cell::Empty);
                c += 1;
            }
            proof {
                assert(chicken_row@ =~= initial_model().chickens[r as int]);
                assert(cell_row@ =~= initial_model().cells[r as int]);
            }
            chickens.push(chicken_row);
            cells.push(cell_row);
            r += 1;
        }
        let mut game = Game {
            cannon: Cannon::new(),
            chickens,
            col: 0,
            row: 0,
            cells,
            countdown: UPDATE_FREQUENCY,
            status: Status::Normal,
            score: 0,
        };
        game.reset();
        proof {
            assert(game@ =~~= initial_model());
        }
        game
    }

    /// Back to play state with a zero score.
    fn reset(&mut self)
        ensures
            final(self)@ == reset_spec(old(self)@),
    {
        self.status = Status::Normal;
        self.score = 0;
    }

    /// The countdown gate for the fall step: reports completion exactly
    /// when the counter has reached zero, reloading it then and
    /// decrementing it otherwise.
    pub fn countdown_complete(&mut self) -> (complete: bool)
        ensures
            complete == completes(old(self)@.countdown),
            final(self)@ == (GameModel { countdown: countdown_step(old(self)@.countdown), ..old(self)@ }),
    {
        if self.countdown == 0 {
            self.countdown = UPDATE_FREQUENCY;
            true
        } else {
            self.countdown -= 1;
            false
        }
    }

    /// The update step of a tick: move the cannon's column by its
    /// per-tick delta and wrap it back onto the board at either edge.
    fn update_location(&mut self)
        requires
            old(self)@.wf(),
        ensures
            final(self)@ == update_location_spec(old(self)@),
            final(self)@.wf(),
            0 <= final(self).cannon.pos.col < WIDTH,
    {
        let sum: i32 = self.cannon.pos.col as i32 + self.cannon.dx as i32;
        if sum >= WIDTH as i32 {
            self.cannon.pos.col = 0;
        } else if sum < 0 {
            self.cannon.pos.col = (WIDTH - 1) as i16;
        } else {
            self.cannon.pos.col = sum as i16;
        }
    }

    /// One raw key: arrows move the cannon's column one step; the board
    /// wrap is deferred to the next tick's update step.
    pub fn handle_raw(&mut self, key: RawKey)
        ensures
            final(self)@ == handle_raw_spec(old(self)@, key),
    {
        match key {
            RawKey::ArrowLeft => {
                if self.cannon.pos.col == i16::MIN {
                    self.cannon.pos.col = i16::MAX;
                } else {
                    self.cannon.pos.col = self.cannon.pos.col - 1;
                }
            },
            RawKey::ArrowRight => {
                if self.cannon.pos.col == i16::MAX {
                    self.cannon.pos.col = i16::MIN;
                } else {
                    self.cannon.pos.col = self.cannon.pos.col + 1;
                }
            },
            RawKey::Spacebar => {
                // reserved for firing; no action is wired to it
            },
            RawKey::S => {},
            RawKey::Other => {},
        }
    }

    /// The clear phase of a tick: blank every column of the sweep row
    /// and of the cannon's row, sweeping once from the column cursor.
    fn clear_current(&self) -> (cmds: Vec<PlotCmd>)
        requires
            self@.wf(),
        ensures
            cmds@ == clear_cmds(self@),
    {
        let mut cmds: Vec<PlotCmd> = Vec::new();
        let mut i: usize = 0;
        while i < WIDTH
            invariant
                self@.wf(),
                i <= WIDTH,
                cmds@ == clear_cmds_upto(self@, i as int),
            decreases WIDTH - i,
        {
            let x = (self.col + i) % WIDTH;
            cmds.push(
                PlotCmd { ch: ' ', col: x, row: self.row, fg: GlyphColor::Black, bg: GlyphColor::Black },
            );
            cmds.push(
                PlotCmd {
                    ch: ' ',
                    col: x,
                    row: self.cannon.pos.row as usize,
                    fg: GlyphColor::Black,
                    bg: GlyphColor::Black,
                },
            );
            proof {
                assert(cmds@ =~= clear_cmds_upto(self@, i + 1));
            }
            i += 1;
        }
        cmds
    }

    /// The draw phase of a tick: emit the spawn sweep's chicken glyphs
    /// and respawn those grid records, draw the cannon, and step the
    /// countdown, letting every chicken fall one row when it completes.
    fn draw_current(&mut self) -> (cmds: Vec<PlotCmd>)
        requires
            old(self)@.wf(),
            0 <= old(self).cannon.pos.col < WIDTH,
        ensures
            final(self)@ == draw_spec(old(self)@),
            final(self)@.wf(),
            cmds@ == draw_cmds(old(self)@),
    {
        let ghost g0 = self@;
        let mut cmds: Vec<PlotCmd> = Vec::new();
        let mut i: usize = 0;
        while i < WIDTH
            invariant
                *self == *old(self),
                self@.wf(),
                g0 == self@,
                i <= WIDTH,
                cmds@ == spawn_cmds_upto(g0, i as int),
            decreases WIDTH - i,
        {
            let x = (self.col + i) % WIDTH;
            if x % 3 == 0 {
                cmds.push(
                    PlotCmd { ch: '&', col: x, row: self.row, fg: GlyphColor::Red, bg: GlyphColor::Black },
                );
            }
            proof {
                assert(cmds@ =~= spawn_cmds_upto(g0, i + 1));
            }
            i += 1;
        }
        let mut new_row: Vec<Chicken> = Vec::new();
        let mut c: usize = 0;
        while c < WIDTH
            invariant
                *self == *old(self),
                self@.wf(),
                g0 == self@,
                c <= WIDTH,
                self.chickens@.len() == HEIGHT,
                self.chickens@[g0.row]@ == g0.chickens[g0.row],
                g0.chickens[g0.row].len() == WIDTH,
                new_row@.len() == c,
                forall|j: int|
                    0 <= j < c ==> new_row@[j] == spawn_row_spec(g0.chickens[g0.row], g0.row)[j],
            decreases WIDTH - c,
        {
            if c % 3 == 0 {
                new_row.push(Chicken::new(Position { col: c as i16, row: self.row as i16 }));
            } else {
                let kept = self.chickens[self.row][c];
                new_row.push(kept);
            }
            c += 1;
        }
        proof {
            assert(new_row@ =~= spawn_row_spec(g0.chickens[g0.row], g0.row));
        }
        self.chickens[self.row] = new_row;
        proof {
            assert(self@.chickens =~~= spawn_spec(g0).chickens);
            assert(self@ =~~= spawn_spec(g0));
        }
        cmds.push(
            PlotCmd {
                ch: '^',
                col: self.cannon.pos.col as usize,
                row: self.cannon.pos.row as usize,
                fg: GlyphColor::Cyan,
                bg: GlyphColor::Black,
            },
        );
        proof {
            assert(cmds@ =~= draw_cmds(g0));
        }
        let complete = self.countdown_complete();
        let ghost counted = self@;
        if complete {
            let ghost pre = self@.chickens;
            let mut r: usize = 0;
            while r < HEIGHT
                invariant
                    r <= HEIGHT,
                    self.cannon == counted.cannon,
                    self.col == counted.col,
                    self.row == counted.row,
                    self.cells@.map_values(|rw: Vec<Cell>| rw@) == counted.cells,
                    self.countdown == counted.countdown,
                    self.status == counted.status,
                    self.score == counted.score,
                    pre == counted.chickens,
                    pre.len() == HEIGHT,
                    forall|rr: int| 0 <= rr < HEIGHT ==> (#[trigger] pre[rr]).len() == WIDTH,
                    self.chickens@.len() == HEIGHT,
                    forall|rr: int| 0 <= rr < r ==> (#[trigger] self.chickens@[rr])@ == fall_spec(pre)[rr],
                    forall|rr: int| r <= rr < HEIGHT ==> (#[trigger] self.chickens@[rr])@ == pre[rr],
                decreases HEIGHT - r,
            {
                let mut fallen: Vec<Chicken> = Vec::new();
                let mut c2: usize = 0;
                while c2 < WIDTH
                    invariant
                        r < HEIGHT,
                        c2 <= WIDTH,
                        pre.len() == HEIGHT,
                        pre[r as int].len() == WIDTH,
                        self.chickens@.len() == HEIGHT,
                        (#[trigger] self.chickens@[r as int])@ == pre[r as int],
                        fallen@.len() == c2,
                        forall|j: int| 0 <= j < c2 ==> fallen@[j] == fall_chicken(pre[r as int][j]),
                    decreases WIDTH - c2,
                {
                    let ch = self.chickens[r][c2];
                    if ch.pos.row == i16::MIN {
                        fallen.push(
                            Chicken { pos: Position { col: ch.pos.col, row: i16::MAX }, ..ch },
                        );
                    } else {
                        fallen.push(
                            Chicken {
                                pos: Position { col: ch.pos.col, row: ch.pos.row - 1 },
                                ..ch
                            },
                        );
                    }
                    c2 += 1;
                }
                proof {
                    assert(fallen@ =~= fall_spec(pre)[r as int]);
                }
                self.chickens[r] = fallen;
                r += 1;
            }
            proof {
                assert(self@.chickens =~~= fall_spec(counted.chickens));
                assert(self@ =~~= (GameModel { chickens: fall_spec(counted.chickens), ..counted }));
                assert(self@ =~~= draw_spec(g0));
            }
        } else {
            proof {
                assert(self@ =~~= draw_spec(g0));
            }
        }
        cmds
    }

    /// One full tick: clear, update, draw.  The returned commands are
    /// everything the display must repaint for this frame.
    pub fn tick(&mut self) -> (cmds: Vec<PlotCmd>)
        requires
            old(self)@.wf(),
        ensures
            final(self)@ == tick_spec(old(self)@),
            final(self)@.wf(),
            cmds@ == tick_cmds(old(self)@),
    {
        let mut cmds = self.clear_current();
        self.update_location();
        let mut draw = self.draw_current();
        cmds.append(&mut draw);
        proof {
            assert(cmds@ =~= tick_cmds(old(self)@));
        }
        cmds
    }

    /// One decoded key event: honour a reset when the game is over,
    /// then hand any raw key to `handle_raw`.
    pub fn handle_event(&mut self, event: KeyEvent)
        ensures
            final(self)@ == key_step(old(self)@, event),
    {
        match self.status {
            Status::Over => {
                match event {
                    KeyEvent::RawKey(RawKey::S) => self.reset(),
                    KeyEvent::Unicode('s') => self.reset(),
                    _ => {},
                }
            },
            _ => {},
        }
        match event {
            KeyEvent::RawKey(code) => self.handle_raw(code),
            _ => {},
        }
    }

    /// One decoded key from the keyboard crate.  Which event a key maps
    /// to is decided by the trusted classifier, so this promises only
    /// that the state steps by `key_step` for some event.
    pub fn key(&mut self, key: pc_keyboard::DecodedKey)
        ensures
            exists|e: KeyEvent| final(self)@ == key_step(old(self)@, e),
    {
        let event = crate::input::classify(key);
        self.handle_event(event);
    }

    /// Runtime check of the state invariant, for callers outside the
    /// library that must establish `tick`'s precondition.
    pub fn wf_check(&self) -> (b: bool)
        ensures
            b == self@.wf(),
    {
        if !(self.cannon.dx < WIDTH && self.cannon.pos.row >= 0 && self.cannon.pos.row
            < HEIGHT as i16) {
            return false;
        }
        if !(self.col < WIDTH && self.row < HEIGHT && self.countdown <= UPDATE_FREQUENCY) {
            return false;
        }
        if self.chickens.len() != HEIGHT || self.cells.len() != HEIGHT {
            return false;
        }
        let mut r: usize = 0;
        while r < HEIGHT
            invariant
                r <= HEIGHT,
                self.chickens@.len() == HEIGHT,
                self.cells@.len() == HEIGHT,
                forall|i: int| 0 <= i < r ==> (#[trigger] self.chickens@[i])@.len() == WIDTH,
                forall|i: int| 0 <= i < r ==> (#[trigger] self.cells@[i])@.len() == WIDTH,
            decreases HEIGHT - r,
        {
            proof {
                assert(self@.chickens[r as int] == self.chickens@[r as int]@);
                assert(self@.cells[r as int] == self.cells@[r as int]@);
            }
            if self.chickens[r].len() != WIDTH || self.cells[r].len() != WIDTH {
                return false;
            }
            r += 1;
        }
        true
    }
}

} // verus!
