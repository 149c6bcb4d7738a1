//! A draw-and-settlement engine for three lottery variants: an instant
//! multiplier lottery, a weekly seven-number lottery, and an hourly
//! three-digit lottery.
//!
//! The engine derives a reproducible 32-byte digest from public entropy
//! sources, maps it to ticket numbers or weighted prize tiers, gates draws
//! behind per-variant time windows, and keeps a strictly accounted prize
//! ledger in which the outstanding prize liability never exceeds the pooled
//! funds. Every operation either completes in full or fails with a named
//! error and leaves the state untouched.
pub mod codec;
pub mod errors;
pub mod instant;
pub mod outcome;
pub mod rng;
pub mod state;
pub mod three_digit;
pub mod weekly;
