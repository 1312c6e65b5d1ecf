//! Verified core of two pieces of a columnar file format: the `list_contains`
//! kernel for byte-string columns (with its hash-set fast path) and the
//! decision logic of the writer of legacy zoned-statistics layouts.

mod byte_set;
pub mod dtype;
pub mod legacy_writer;
pub mod list_contains;
pub mod sequence;
