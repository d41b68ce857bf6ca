//! The syntax model: what the analysis reads of a parsed module.
//!
//! Each type that the analysis hands back, or keeps, comes with a ghost model
//! in which strings are sequences of characters and vectors are sequences;
//! contracts speak of the models.

pub mod expr;
pub mod item;
pub mod ty;
