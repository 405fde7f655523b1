//! Key events.  The game's own event type mirrors the shape of the
//! keyboard crate's decoded keys, holding exactly what the input logic
//! reads: the few raw keys it reacts to, and decoded characters.

use vstd::prelude::*;

verus! {

/// The raw keys the game distinguishes; every other raw key is `Other`.
#[derive(Debug, Copy, Clone, PartialEq, Eq, Structural)]
pub enum RawKey {
    ArrowLeft,
    ArrowRight,
    Spacebar,
    S,
    Other,
}

/// A key event as the game reads it: either one of the raw keys above
/// or a decoded character.
#[derive(Debug, Copy, Clone, PartialEq, Eq, Structural)]
pub enum KeyEvent {
    RawKey(RawKey),
    Unicode(char),
}

#[verifier::external_type_specification]
#[verifier::external_body]
pub struct ExDecodedKey(pc_keyboard::DecodedKey);

#[verifier::external_type_specification]
#[verifier::external_body]
pub struct ExKeyCode(pc_keyboard::KeyCode);

/// Relies on pc_keyboard::DecodedKey and pc_keyboard::KeyCode being
/// plain data enums: this only tells their variants apart, moving the
/// decoded character over unchanged.  Nothing is assumed about which
/// event comes out of which key.
#[verifier::external_body]
pub(crate) fn classify(key: pc_keyboard::DecodedKey) -> (e: KeyEvent) {
    match key {
        pc_keyboard::DecodedKey::RawKey(code) => match code {
            pc_keyboard::KeyCode::ArrowLeft => KeyEvent::RawKey(RawKey::ArrowLeft),
            pc_keyboard::KeyCode::ArrowRight => KeyEvent::RawKey(RawKey::ArrowRight),
            pc_keyboard::KeyCode::Spacebar => KeyEvent::RawKey(RawKey::Spacebar),
            pc_keyboard::KeyCode::S => KeyEvent::RawKey(RawKey::S),
            _ => KeyEvent::RawKey(RawKey::Other),
        },
        pc_keyboard::DecodedKey::Unicode(ch) => KeyEvent::Unicode(ch),
    }
}

} // verus!
