//! Live HLS capture engine: playlist resolution, sequence-aware
//! deduplication, split policies, and crash-safe output finalization,
//! modeled and verified as a step-driven state machine.

pub mod names;
pub mod parse;
pub mod playlist;
pub mod sequence;
pub mod session;
pub mod split;
pub mod urls;
