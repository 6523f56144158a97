//! A verified turn-based multiplayer bingo lottery engine.
//!
//! Players pay a fixed entry fee to join a round and receive a board derived
//! deterministically from a cryptographic hash of stable per-player inputs.
//! Numbers are then drawn at a fixed cadence, and a player wins by showing
//! that one of a fixed catalog of win patterns on their board is fully
//! covered by the drawn numbers, after which the pot is paid out.
//!
//! The engine itself is pure state-machine logic over plain values; the
//! hosting environment (storage, message decoding, funds transfer) sits
//! outside and talks to it through [`registry::Registry`] and
//! [`msg::ExecuteMsg`].

pub mod board;
pub mod bytes;
pub mod draw;
pub mod errors;
pub mod game;
pub mod hashing;
pub mod msg;
pub mod patterns;
pub mod payout;
pub mod registry;

pub use errors::BingoError;
