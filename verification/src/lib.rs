//! Decomposition of SQL query trees into independently runnable SELECT
//! statements, together with the WITH-clause texts needed to run a
//! CTE-scoped statement on its own.

pub mod ast;
pub mod found;
pub mod label;
pub mod laws;
pub mod model;
pub mod rows;
pub mod walk;
