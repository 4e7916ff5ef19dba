//! Materializes a columnar record batch — typed, nullable columns plus a
//! schema of named fields — into per-column sequences of plainly tagged
//! scalar values, ready for a host environment that has no columnar model
//! of its own.

pub mod column;
pub mod date;
pub mod index;
pub mod materialize;
