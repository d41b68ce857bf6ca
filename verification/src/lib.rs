//! Lint rules for smart-contract source modules: the syntax model they walk,
//! the scope and type resolution underneath them, and the rules themselves.

pub mod detectors;
pub mod driver;
pub mod error;
pub mod keyed;
pub mod project;
pub mod readiness;
pub mod scope;
pub mod span;
pub mod syntax;
pub mod typing;
pub mod visitor;
pub mod walk;
