//! The one error type of the library's operations.

use vstd::prelude::*;

verus! {

/// Why an operation failed.
#[derive(Debug)]
pub enum CliError {
    /// The table name is not a plain identifier (a letter or `_`, then
    /// letters, digits and `_`). Table names are written into SQL text, so
    /// any other name is refused before a statement is built.
    InvalidTableName,
    /// The database refused or failed a statement.
    Database(rusqlite::Error),
    /// The CSV text could not be read as records of equal length.
    Csv(csv::Error),
    /// A data row (counted from 1, after the header) does not have the four
    /// fields `id, name, gender, city`.
    FieldCount { row: usize, found: usize },
    /// The `id` field of a data row (counted from 1) is not an `i64`.
    InvalidId { row: usize },
}

} // verus!
