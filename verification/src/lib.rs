//! Exact geometry predicates with certified outcomes.
//!
//! Coordinates are exact rationals. Every sign a predicate depends on is
//! computed exactly by `hyperreal`, and every result reports how it was
//! certified.
pub mod classify;
pub mod exact;
pub mod geometry;
pub mod predicate;
pub mod resolve;
pub mod predicates;
