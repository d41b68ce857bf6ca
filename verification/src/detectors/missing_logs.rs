//! The rule that finds storage writes whose value is not logged.
//!
//! What the rule keeps mirrors the nesting of the source: a module holds its
//! functions, keyed by the text of their signatures, and a function holds its
//! blocks, keyed by their text. A block holds the storage writes made in it
//! and the values logged in it. When a block is left, each of its writes
//! whose value is not among the values logged in that same block is
//! reported. A log in another block does not count.

pub mod growth;
pub mod laws;
pub mod patterns;
pub mod state;
pub mod visitor;

