//! The rule that finds imports which nothing in their module refers to.
//!
//! Every imported name is registered with a counter when its `use` item is
//! visited. Whatever can refer to a name afterwards is matched against the
//! registered names by its text, and a match counts as a use. When the module
//! is left, each name that was never used is reported.

pub mod laws;
pub mod state;
pub mod usage;
pub mod visitor;

