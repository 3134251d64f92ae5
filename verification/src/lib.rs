//! Hamming distances over fixed-length boolean fingerprints, together with the
//! random dataset generator that a timing run draws its input from.
//!
//! The `distance` module holds the comparison kernel and the laws that hold of
//! it; the `dataset` module builds random fingerprints and runs one comparison
//! pass of a whole dataset against its first element.

pub mod dataset;
pub mod distance;
