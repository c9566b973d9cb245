//! An engine for an on-chain secret-guessing game.
//!
//! The library has two verified cores: a confidential compute channel — a
//! per-call authenticated-encryption protocol used to talk to a remote AI
//! node — and an event-driven game engine that consumes an ordered,
//! resumable blockchain event log and drives the game state. Around them
//! stand a strict JSON codec for the model's request and response contracts,
//! a durable cursor checkpoint format, and the configuration records.
//!
//! All I/O (HTTP, the ledger, files, clocks) stays outside the library: the
//! functions here turn plain values into plain values, and their contracts
//! say exactly which.

pub mod channel;
pub mod codec;
pub mod config;
pub mod crypto;
pub mod cursor;
pub mod dec;
pub mod engine;
pub mod events;
pub mod http_api;
pub mod json;
pub mod kv;
pub mod prompts;
pub mod sig;
