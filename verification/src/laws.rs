//! The laws the game obeys, stated over the same spec functions that
//! the executable methods' contracts use, and proved once and for all.

use vstd::prelude::*;

use crate::board::HEIGHT;
use crate::board::Position;
use crate::board::WIDTH;
use crate::entities::Chicken;
use crate::game::completes;
use crate::game::countdown_step;
use crate::game::fall_spec;
use crate::game::is_reset;
use crate::game::key_step;
use crate::game::spawn_spec;
use crate::game::tick_spec;
use crate::game::update_location_spec;
use crate::game::GameModel;
use crate::game::Status;
use crate::game::UPDATE_FREQUENCY;
use crate::input::KeyEvent;

verus! {

/// Law: whatever column the cannon held before a tick, its column lies
/// on the board after the tick's update step; a column that steps to
/// the board width wraps to 0, and one that steps below 0 wraps to the
/// last column.
pub proof fn lemma_cannon_wrap(g: GameModel)
    ensures
        0 <= tick_spec(g).cannon.pos.col < WIDTH,
        g.cannon.pos.col + g.cannon.dx == WIDTH ==> tick_spec(g).cannon.pos.col == 0,
        g.cannon.pos.col + g.cannon.dx == -1 ==> tick_spec(g).cannon.pos.col == WIDTH - 1,
{
}

/// The countdown value once a new game's gate has run `n` times.
pub open spec fn countdown_after(n: nat) -> int
    decreases n,
{
    if n == 0 {
        UPDATE_FREQUENCY as int
    } else {
        countdown_step(countdown_after((n - 1) as nat))
    }
}

/// Law: the countdown gate of a fresh game completes exactly once
/// every `UPDATE_FREQUENCY + 1` calls: the call that observes the
/// countdown after `n` earlier calls reports completion iff `n + 1`
/// is a multiple of `UPDATE_FREQUENCY + 1`.
pub proof fn lemma_countdown_cadence(n: nat)
    ensures
        countdown_after(n) == UPDATE_FREQUENCY - (n as int) % (UPDATE_FREQUENCY as int + 1),
        completes(countdown_after(n)) <==> (n as int + 1) % (UPDATE_FREQUENCY as int + 1) == 0,
    decreases n,
{
    if n > 0 {
        lemma_countdown_cadence((n - 1) as nat);
    }
}

/// Law: the spawn step creates a chicken at the sweep row's columns
/// that are multiples of 3, positioned at that column and row; it
/// leaves every other column of the sweep row and every other row of
/// the grid untouched.
pub proof fn lemma_spawn_columns(g: GameModel, c: int)
    requires
        g.wf(),
        0 <= c < WIDTH,
    ensures
        c % 3 == 0 ==> spawn_spec(g).chickens[g.row][c] == Chicken::spec_new(
            Position { col: c as i16, row: g.row as i16 },
        ),
        c % 3 != 0 ==> spawn_spec(g).chickens[g.row][c] == g.chickens[g.row][c],
        forall|r: int| 0 <= r < HEIGHT && r != g.row ==> spawn_spec(g).chickens[r] == g.chickens[r],
{
}

/// Law: a fall step lowers every chicken's stored row by exactly one
/// and changes no chicken's column.  The requirement keeps the row off
/// the bottom of the machine integer range, where the stored row wraps
/// instead of decreasing.
pub proof fn lemma_fall_step(chickens: Seq<Seq<Chicken>>, r: int, c: int)
    requires
        0 <= r < chickens.len(),
        0 <= c < chickens[r].len(),
        chickens[r][c].pos.row > i16::MIN,
    ensures
        fall_spec(chickens)[r][c].pos.row == chickens[r][c].pos.row - 1,
        fall_spec(chickens)[r][c].pos.col == chickens[r][c].pos.col,
{
}

/// Law: on a tick whose countdown completes, every chicken's stored
/// row ends exactly one below where that tick's spawn step left it,
/// with its column unchanged; rows off the bottom of the machine
/// integer range are excluded as in `lemma_fall_step`.
pub proof fn lemma_fall_on_tick(g: GameModel, r: int, c: int)
    requires
        g.wf(),
        completes(g.countdown),
        0 <= r < HEIGHT,
        0 <= c < WIDTH,
        spawn_spec(update_location_spec(g)).chickens[r][c].pos.row > i16::MIN,
    ensures
        tick_spec(g).chickens[r][c].pos.row == spawn_spec(update_location_spec(g)).chickens[r][c].pos.row
            - 1,
        tick_spec(g).chickens[r][c].pos.col == spawn_spec(update_location_spec(g)).chickens[r][c].pos.col,
{
    lemma_fall_step(spawn_spec(update_location_spec(g)).chickens, r, c);
}

/// Law: while the game is over, a reset key returns it to play with a
/// zero score, and any other key leaves the status (and the score)
/// unchanged.
pub proof fn lemma_reset_key(g: GameModel, e: KeyEvent)
    requires
        g.status == Status::Over,
    ensures
        is_reset(e) ==> key_step(g, e).status == Status::Normal && key_step(g, e).score == 0,
        !is_reset(e) ==> key_step(g, e).status == Status::Over && key_step(g, e).score == g.score,
{
}

} // verus!
