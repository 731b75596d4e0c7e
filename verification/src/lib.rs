//! Core of a dual n-back exercise: cue chains with a look-back window,
//! confusion-matrix scoring, and the round-by-round reconciliation of a
//! player's claims against the chains.
//!
//! - [`cue`]: the stimulus domains, each with its sentinel, and the way a
//!   uniformly drawn index picks a value.
//! - [`chain`]: the sliding window of one channel, the rule for the next cue
//!   and the test for a match.
//! - [`score`]: the confusion matrix of one channel and what is derived from
//!   it.
//! - [`engine`]: the session of two channels and its round boundary.

pub mod chain;
pub mod cue;
pub mod engine;
mod random;
pub mod score;
