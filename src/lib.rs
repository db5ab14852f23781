//! A two-player commit-reveal match of rock-paper-scissors-lizard-spock.
//!
//! Each player first commits to the SHA-256 digest of a text whose first word
//! starts with a symbol naming a hand, then reveals the text. Once both reveals land the
//! match is resolved from the beats relation; if only one lands, the revealer
//! may claim the match once the reveal deadline has passed.

mod error;
mod game;
mod hand;
mod instructions;
mod solana;

pub use error::SErrors;
pub use hand::{decide, Beats, Hand, HandResult};
pub use game::{hand_in_text, is_white_space_char, same_bytes, Game, GameView, PlayerKey, SeatView, Winner};
pub use instructions::{forfeit, new_game, place_hand, place_hash};
