//! Client-side protocol layer for delegating control of a Solana vote account
//! to the on-chain vote-account-manager program.
//!
//! The crate covers the authority-hierarchy data model, the instruction
//! encoder (ten command variants, each with an exact account list and a
//! byte-exact little-endian payload), the fixed-size state decoder, and the
//! pure argument-resolution helpers that the command-line front end uses.

pub mod cli;
pub mod decoder;
pub mod digits;
pub mod encoder;
pub mod errors;
pub mod host;
pub mod keys;
pub mod orchestrator;
pub mod transaction_data;
