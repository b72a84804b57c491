//! Verified core of a pitch-class colouriser: a bank of resonant stages, one
//! per semitone of the piano range, whose contributions are re-weighted by
//! pitch class.
//!
//! The crate owns everything about the effect that is exact: which notes the
//! bank covers and how they map to pitch classes, which sample rates are
//! acceptable, how the bank is laid out and swept, and how a block of audio is
//! dispatched to one shared bank or to one bank per channel. The numeric
//! kernel of a stage is supplied by the caller.

pub mod filterbank;
pub mod notes;
pub mod processor;
pub mod rate;

