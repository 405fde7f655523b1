//! Core of a minimal character-cell arcade game: a cannon sweeping the
//! bottom of a fixed grid while chickens spawn along a sweep row and
//! fall, advanced by a timer tick and steered by key events.
//!
//! The library holds the whole game state machine and its update rules;
//! drawing is returned as plain plot commands for a display driver to
//! execute, and key events arrive either pre-decoded or as the keyboard
//! crate's decoded keys.

pub mod board;
pub mod entities;
pub mod game;
pub mod input;
pub mod laws;

pub use board::Cell;
pub use board::Dir;
pub use board::Position;
pub use board::RowColIter;
pub use board::HEIGHT;
pub use board::WIDTH;
pub use entities::Cannon;
pub use entities::Chicken;
pub use entities::Rockets;
pub use game::Game;
pub use game::GlyphColor;
pub use game::PlotCmd;
pub use game::Status;
pub use game::UPDATE_FREQUENCY;
pub use input::KeyEvent;
pub use input::RawKey;
