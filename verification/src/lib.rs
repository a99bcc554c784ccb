//! Bitrate budgeting and orchestration for two-pass video re-encoding.
//!
//! The library computes the parameters that make a re-encoded video land
//! under a requested output size, resolves where the output file goes, and
//! decides, step by step, which external command to run next.  All
//! quantities are carried in exact fixed-point units: durations in
//! milliseconds, bitrates in thousandths of a kilobit per second, and
//! sizes in millionths of a megabyte.

pub mod budget;
pub mod converter;
pub mod driver;
pub mod error;
pub mod paths;
pub mod probe;
pub mod text;
