//! The answer-serving HTTP surface's records: the query a player's page
//! polls with and the answer it is shown. The server itself is transport
//! plumbing and lives outside the library.

use vstd::prelude::*;

verus! {

/// A poll for the answer to a submitted guess.
#[derive(Clone, Copy, Debug, PartialEq, Eq, Structural)]
pub struct GuessQuery {
    /// The guess polled for.
    pub guess: u64,
    /// The game the guess belongs to.
    pub guess_game_id: u64,
}

/// The answer shown for a judged guess.
#[derive(Clone, Debug)]
pub struct GuessResponse {
    /// Whether the guess named the secret.
    pub correct: bool,
    /// The model's account of the verdict.
    pub explanation: String,
}

/// What can end the HTTP surface.
#[derive(Clone, Debug)]
pub enum HttpServerError {
    /// The transport failed; the text tells how.
    Io(String),
}

} // verus!
