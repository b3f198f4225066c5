//! Exact predicate families.
pub mod interval;
pub mod orient;
pub mod aabb;
pub mod segment;
pub mod triangle;
pub mod distance;
pub mod order;
