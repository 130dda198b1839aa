use vstd::prelude::*;

use crate::decoder::{decode_text_column, ipc_first_batch, text_lookup, ColumnModel};
use crate::error::ShardError;
use crate::hasher::{column_hashes, first_null, hash_column, hashes_view, TextModel};

verus! {

/// What fingerprinting a decoded batch gives: the hashes of its text column,
/// or why there are none.
pub open spec fn batch_hashes(cols: Seq<ColumnModel>) -> Result<Seq<u64>, ShardError> {
    match text_lookup(cols) {
        Ok(col) => column_hashes(col),
        Err(e) => Err(e),
    }
}

/// Fingerprints every record of a shard, given the bytes of its Arrow IPC
/// stream: one hash per row of the first batch's text column, in row order.
pub fn calculate_hashes(bytes: &[u8]) -> (r: Result<Vec<u64>, ShardError>)
    ensures
        match ipc_first_batch(bytes@) {
            None => r matches Err(ShardError::Malformed(_)),
            Some(None) => r == Err::<Vec<u64>, ShardError>(ShardError::NoBatch),
            Some(Some(cols)) => hashes_view(r) == batch_hashes(cols),
        },
        r matches Err(ShardError::NullText(row)) ==> exists|cols: Seq<ColumnModel>, col: TextModel|
            ipc_first_batch(bytes@) == Some(Some(cols)) && text_lookup(cols) == Ok::<TextModel, ShardError>(col)
                && first_null(col, row as int),
{
    let column = decode_text_column(bytes)?;
    hash_column(&column)
}

/// The shard at `i` is the first that failed. Each outcome is a shard's number
/// of fingerprints, or its failure.
pub open spec fn first_failed<E>(outcomes: Seq<Result<usize, E>>, i: int) -> bool {
    &&& 0 <= i < outcomes.len()
    &&& outcomes[i] is Err
    &&& forall|j: int| 0 <= j < i ==> outcomes[j] is Ok
}

/// The run's verdict over all shard outcomes: `None` when every shard
/// succeeded, else the index of the first failed shard, which fails the run.
pub fn first_failure<E>(outcomes: &Vec<Result<usize, E>>) -> (r: Option<usize>)
    ensures
        match r {
            None => forall|j: int| 0 <= j < outcomes@.len() ==> outcomes@[j] is Ok,
            Some(i) => first_failed(outcomes@, i as int),
        },
{
    let mut i: usize = 0;
    while i < outcomes.len()
        invariant
            i <= outcomes@.len(),
            forall|j: int| 0 <= j < i ==> outcomes@[j] is Ok,
        decreases outcomes.len() - i,
    {
        if outcomes[i].is_err() {
            return Some(i);
        }
        i = i + 1;
    }
    None
}

} // verus!
