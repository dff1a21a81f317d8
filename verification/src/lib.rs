//! Index, window and history logic of an osu!standard difficulty calculator.
//!
//! The strain arithmetic itself is floating point and lives outside this
//! crate. Kept here, each with a contract proved by Verus, are the history
//! of recent objects, the split of strain sections for the backload penalty,
//! the neighbour and lookback indices of the reading evaluator, the size of
//! the memorised opening and the number of objects a play requests.

pub mod partial;
pub mod reading;
pub mod recent;
pub mod sections;
