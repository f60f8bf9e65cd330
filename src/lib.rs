//! Reshapes the item and gathering-node datasets of a game: per-language keys become
//! one localized text per field, and loosely typed slots and positions get fixed
//! shapes with defaults.
pub mod convert;
pub mod decode;
pub mod json;
pub mod laws;
pub mod records;
