//! Detection of values of a linear-like marker category that are destroyed
//! implicitly instead of being consumed.
//!
//! The analysis works on a plain model of a lowered function body: basic
//! blocks with terminators, local declarations, and a table of the types that
//! the destroyed locations can have. For each block that is not a cleanup
//! block and ends by destroying a value whose type is marked, it gives one
//! warning.

pub mod body;
pub mod diagnostic;
pub mod lint;
pub mod marker;
pub mod scan;
pub mod types;

pub use crate::body::enclosing_mir;
pub use crate::diagnostic::emit;
pub use crate::lint::DropLinearType;
