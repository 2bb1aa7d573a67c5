//! The failure taxonomy of the CSV reader; the reader itself lives with
//! the file handling, outside the verified core.

use vstd::prelude::*;

verus! {

/// What can go wrong while streaming records out of a CSV file.
#[derive(Debug, Clone)]
pub enum CsvIteratorError {
    /// The file could not be opened; carries the description.
    FileError(String),
    /// A record could not be deserialized; carries the description.
    CsvDeserializeError(String),
}

} // verus!
