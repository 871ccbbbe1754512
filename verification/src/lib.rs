//! Operational transformation of spreadsheet mutations.
//!
//! Two users edit the same workbook concurrently; each edit is a mutation
//! (insert rows, remove columns, set cell values, ...). When an edit `m1`
//! arrives on top of a concurrent edit `m2`, the library rewrites both so that
//! they can be applied in either order: `transform(m1, m2) = (m1', m2')`.
//! Consecutive edits of the same kind can also be merged (`compose`).

pub mod sheet;
pub mod matrix;
pub mod mutation;
pub mod mutation_transform;
pub mod structural;
pub mod insert_row;
pub mod insert_col;
pub mod remove_col;
pub mod remove_rows;
pub mod set_range_values;
pub mod service;
pub mod sheets_generic;
pub mod sheets_mutations;
pub mod laws;
pub mod carry_laws;
