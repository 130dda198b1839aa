use vstd::prelude::*;

verus! {

/// Why a shard could not be fingerprinted.
#[derive(Debug, PartialEq, Eq)]
pub enum ShardError {
    /// The bytes are not a readable Arrow IPC stream.
    Malformed(String),
    /// The stream holds a schema but no record batch.
    NoBatch,
    /// No column of the batch is named `text`.
    MissingTextColumn,
    /// The column named `text` does not hold UTF-8 strings.
    TextNotUtf8,
    /// The text column is null at the given row.
    NullText(usize),
}

} // verus!
