// Key handling through the keyboard crate's decoded keys, exercising
// the trusted classifier together with the verified event logic.

use chicken_invaders::Game;
use chicken_invaders::Status;
use pc_keyboard::DecodedKey;
use pc_keyboard::KeyCode;

#[test]
fn raw_arrows_move_the_cannon() {
    let mut game = Game::new();
    game.key(DecodedKey::RawKey(KeyCode::ArrowRight));
    assert_eq!(game.cannon.pos.col, 41);
    game.key(DecodedKey::RawKey(KeyCode::ArrowLeft));
    game.key(DecodedKey::RawKey(KeyCode::ArrowLeft));
    assert_eq!(game.cannon.pos.col, 39);
}

#[test]
fn raw_reset_key_resets_a_finished_game() {
    let mut game = Game::new();
    game.status = Status::Over;
    game.score = 11;
    game.key(DecodedKey::RawKey(KeyCode::S));
    assert_eq!(game.status, Status::Normal);
    assert_eq!(game.score, 0);
}

#[test]
fn unicode_reset_key_resets_a_finished_game() {
    let mut game = Game::new();
    game.status = Status::Over;
    game.score = 2;
    game.key(DecodedKey::Unicode('s'));
    assert_eq!(game.status, Status::Normal);
    assert_eq!(game.score, 0);
}

#[test]
fn other_keys_leave_a_finished_game_over() {
    let mut game = Game::new();
    game.status = Status::Over;
    game.score = 4;
    game.key(DecodedKey::Unicode('q'));
    assert_eq!(game.status, Status::Over);
    assert_eq!(game.score, 4);
    game.key(DecodedKey::RawKey(KeyCode::Return));
    assert_eq!(game.status, Status::Over);
    assert_eq!(game.score, 4);
}

#[test]
fn spacebar_is_reserved_and_does_nothing() {
    let mut game = Game::new();
    game.key(DecodedKey::RawKey(KeyCode::Spacebar));
    assert_eq!(game.cannon.pos.col, 40);
    assert_eq!(game.status, Status::Normal);
    assert_eq!(game.score, 0);
}

#[test]
fn characters_do_not_move_the_cannon() {
    let mut game = Game::new();
    game.key(DecodedKey::Unicode('a'));
    assert_eq!(game.cannon.pos.col, 40);
}
