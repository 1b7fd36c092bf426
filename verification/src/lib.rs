//! Rules engine for a turn-based board-and-minigame contest against a
//! scripted opponent.
//!
//! The library holds the deterministic game state and its transitions: the
//! session machine, the board's per-turn machine, the coin ledger, the item
//! slots, the four minigames and the end-sequence gauntlet. Rendering,
//! audio playback and input polling are left to the host, which feeds the
//! engine plain values (elapsed milliseconds, key states, random draws) and
//! carries out the cues the engine hands back.

pub mod animation;
pub mod board;
pub mod collision;
pub mod cont;
pub mod dialogue;
pub mod dice;
pub mod end_game;
pub mod ending;
pub mod game;
pub mod info_screen;
pub mod intro;
pub mod item;
pub mod ledger;
pub mod mini_game;
pub mod num;
pub mod rng;
pub mod setup;
pub mod tile;

pub use ledger::CoinLedger;
pub use ledger::Side;
