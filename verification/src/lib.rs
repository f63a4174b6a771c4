//! A verified in-memory mirror of a directory hierarchy.
//!
//! The library turns a plain snapshot of filesystem entries (names,
//! directory flags, sizes, modification times) into a tree of nodes whose
//! metadata carries the modification time as formatted text.  The caller
//! gathers the snapshot; everything from there on is verified.

pub mod errors;
pub mod laws;
pub mod scan;
pub mod timestamp;
pub mod tree;
