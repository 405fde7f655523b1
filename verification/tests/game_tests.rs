use chicken_invaders::Cell;
use chicken_invaders::Dir;
use chicken_invaders::Game;
use chicken_invaders::GlyphColor;
use chicken_invaders::KeyEvent;
use chicken_invaders::Position;
use chicken_invaders::RawKey;
use chicken_invaders::Status;
use chicken_invaders::HEIGHT;
use chicken_invaders::UPDATE_FREQUENCY;
use chicken_invaders::WIDTH;

#[test]
fn new_game_initial_state() {
    let game = Game::new();
    assert_eq!(game.cannon.cannon, '^');
    assert_eq!(game.cannon.pos, Position { col: 40, row: 24 });
    assert_eq!(game.cannon.dx, 0);
    assert_eq!(game.col, 0);
    assert_eq!(game.row, 0);
    assert_eq!(game.countdown, UPDATE_FREQUENCY);
    assert_eq!(game.status, Status::Normal);
    assert_eq!(game.score, 0);
    assert_eq!(game.chickens.len(), HEIGHT);
    assert_eq!(game.cells.len(), HEIGHT);
    for r in 0..HEIGHT {
        assert_eq!(game.chickens[r].len(), WIDTH);
        assert_eq!(game.cells[r].len(), WIDTH);
        for c in 0..WIDTH {
            let chick = game.chickens[r][c];
            assert_eq!(chick.pos, Position { col: 0, row: 0 });
            assert_eq!(chick.dir, Dir::S);
            assert!(chick.active);
            assert_eq!(game.cells[r][c], Cell::Empty);
        }
    }
    assert!(game.wf_check());
}

#[test]
fn countdown_gate_cadence() {
    let mut game = Game::new();
    let expected = [
        false, false, false, true, false, false, false, true, false, false, false, true,
    ];
    for (i, want) in expected.iter().enumerate() {
        assert_eq!(game.countdown_complete(), *want, "call {}", i + 1);
    }
}

#[test]
fn countdown_reloads_after_completion() {
    let mut game = Game::new();
    for _ in 0..UPDATE_FREQUENCY {
        assert!(!game.countdown_complete());
    }
    assert_eq!(game.countdown, 0);
    assert!(game.countdown_complete());
    assert_eq!(game.countdown, UPDATE_FREQUENCY);
}

#[test]
fn first_tick_spawns_on_multiples_of_three() {
    let mut game = Game::new();
    game.tick();
    // no fall on the first tick: the countdown was still running
    assert_eq!(game.countdown, UPDATE_FREQUENCY - 1);
    for c in 0..WIDTH {
        let chick = game.chickens[0][c];
        if c % 3 == 0 {
            assert_eq!(chick.pos, Position { col: c as i16, row: 0 });
        } else {
            assert_eq!(chick.pos, Position { col: 0, row: 0 });
        }
        assert_eq!(chick.dir, Dir::S);
        assert!(chick.active);
    }
    // rows other than the sweep row are untouched
    for r in 1..HEIGHT {
        for c in 0..WIDTH {
            assert_eq!(game.chickens[r][c].pos, Position { col: 0, row: 0 });
        }
    }
}

#[test]
fn fourth_tick_makes_every_chicken_fall_once() {
    let mut game = Game::new();
    for _ in 0..(UPDATE_FREQUENCY + 1) {
        game.tick();
    }
    // the fall happened exactly once, after that tick's respawn
    for c in 0..WIDTH {
        let chick = game.chickens[0][c];
        if c % 3 == 0 {
            assert_eq!(chick.pos, Position { col: c as i16, row: -1 });
        } else {
            assert_eq!(chick.pos, Position { col: 0, row: -1 });
        }
    }
    for r in 1..HEIGHT {
        for c in 0..WIDTH {
            assert_eq!(game.chickens[r][c].pos, Position { col: 0, row: -1 });
        }
    }
    assert_eq!(game.countdown, UPDATE_FREQUENCY);
}

#[test]
fn arrow_key_then_tick_moves_one_column() {
    let mut game = Game::new();
    game.handle_event(KeyEvent::RawKey(RawKey::ArrowRight));
    game.tick();
    assert_eq!(game.cannon.pos.col, 41);
    game.handle_event(KeyEvent::RawKey(RawKey::ArrowLeft));
    game.tick();
    assert_eq!(game.cannon.pos.col, 40);
}

#[test]
fn eighty_rights_return_to_start() {
    let mut game = Game::new();
    assert_eq!(game.cannon.pos.col, 40);
    for _ in 0..WIDTH {
        game.handle_event(KeyEvent::RawKey(RawKey::ArrowRight));
        game.tick();
    }
    assert_eq!(game.cannon.pos.col, 40);
}

#[test]
fn tick_wraps_column_at_both_edges() {
    let mut game = Game::new();
    game.cannon.pos.col = 79;
    game.handle_raw(RawKey::ArrowRight);
    assert_eq!(game.cannon.pos.col, 80);
    game.tick();
    assert_eq!(game.cannon.pos.col, 0);
    game.handle_raw(RawKey::ArrowLeft);
    assert_eq!(game.cannon.pos.col, -1);
    game.tick();
    assert_eq!(game.cannon.pos.col, 79);
}

#[test]
fn reset_key_leaves_game_over() {
    let mut game = Game::new();
    game.status = Status::Over;
    game.score = 7;
    game.handle_event(KeyEvent::RawKey(RawKey::S));
    assert_eq!(game.status, Status::Normal);
    assert_eq!(game.score, 0);

    let mut game2 = Game::new();
    game2.status = Status::Over;
    game2.score = 9;
    game2.handle_event(KeyEvent::Unicode('s'));
    assert_eq!(game2.status, Status::Normal);
    assert_eq!(game2.score, 0);
}

#[test]
fn other_keys_do_not_reset() {
    let mut game = Game::new();
    game.status = Status::Over;
    game.score = 5;
    game.handle_event(KeyEvent::Unicode('x'));
    assert_eq!(game.status, Status::Over);
    assert_eq!(game.score, 5);
    game.handle_event(KeyEvent::RawKey(RawKey::ArrowLeft));
    assert_eq!(game.status, Status::Over);
    assert_eq!(game.score, 5);
    // the arrow still moved the cannon, as it does in any status
    assert_eq!(game.cannon.pos.col, 39);
    game.handle_event(KeyEvent::RawKey(RawKey::Spacebar));
    assert_eq!(game.status, Status::Over);
}

#[test]
fn reset_key_during_play_changes_nothing_but_score() {
    let mut game = Game::new();
    game.score = 3;
    game.handle_event(KeyEvent::Unicode('s'));
    // not over, so the reset arm is not taken and a character is ignored
    assert_eq!(game.status, Status::Normal);
    assert_eq!(game.score, 3);
}

#[test]
fn tick_commands_clear_then_draw() {
    let mut game = Game::new();
    let cmds = game.tick();
    // 2 blanks per column, 27 spawn glyphs (columns 0, 3, ..., 78), 1 cannon
    assert_eq!(cmds.len(), 2 * WIDTH + 27 + 1);
    // clear phase: blanks over the sweep row and the cannon row
    assert_eq!(cmds[0].ch, ' ');
    assert_eq!((cmds[0].col, cmds[0].row), (0, 0));
    assert_eq!(cmds[0].fg, GlyphColor::Black);
    assert_eq!(cmds[0].bg, GlyphColor::Black);
    assert_eq!((cmds[1].col, cmds[1].row), (0, 24));
    assert_eq!((cmds[158].col, cmds[158].row), (79, 0));
    assert_eq!((cmds[159].col, cmds[159].row), (79, 24));
    // draw phase: chicken glyphs on multiples of 3, then the cannon
    assert_eq!(cmds[160].ch, '&');
    assert_eq!((cmds[160].col, cmds[160].row), (0, 0));
    assert_eq!(cmds[160].fg, GlyphColor::Red);
    assert_eq!(cmds[161].col, 3);
    let last = cmds[cmds.len() - 1];
    assert_eq!(last.ch, '^');
    assert_eq!((last.col, last.row), (40, 24));
    assert_eq!(last.fg, GlyphColor::Cyan);
    assert_eq!(last.bg, GlyphColor::Black);
}

#[test]
fn wf_check_rejects_a_broken_state() {
    let mut game = Game::new();
    assert!(game.wf_check());
    game.col = WIDTH;
    assert!(!game.wf_check());
    game.col = 0;
    game.chickens[3].pop();
    assert!(!game.wf_check());
}
