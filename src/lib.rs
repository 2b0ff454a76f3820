//! Trace-column layout of the Keccak sub-circuit and runtime lookup tables.
//!
//! The layout engine gives each named cell of a Keccak trace row a fixed
//! position, both inside the structured row and inside its flat canonical
//! sequence; the runtime-table module describes lookup tables whose second
//! column is supplied at proving time, and the constraint that gates them.

pub mod schema;
pub mod column;
pub mod columns;
pub mod expr;
pub mod runtime_tables;
