//! An interactive incremental-search selector for repository listings: the
//! decoration of repository records into display lines, the query matcher,
//! the finder state with its navigation and editing rules, the pure
//! projection of that state into a frame, and the key-driven session step.

pub mod formatter;
pub mod matcher;
pub mod finder;
pub mod render;
