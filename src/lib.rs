//! Merge-mining proof of work: checks that a donor-chain coinbase transaction commits to
//! an auxiliary header, builds the canonical input of the proof-of-work hash, and turns
//! the resulting hash into a difficulty.

pub mod commitment;
pub mod difficulty;
pub mod error;
pub mod input;
pub mod payload;
pub mod pow;
