use vstd::prelude::*;
use vstd::utf8::encode_utf8;

use crate::error::ShardError;

verus! {

/// The XXH3-64 hash (seed 0, default secret) of a byte sequence.
pub uninterp spec fn xxh3_64_of(bytes: Seq<u8>) -> u64;

/// Relies on `xxhash_rust::xxh3::xxh3_64`: a pure function of the input bytes.
#[verifier::external_body]
fn xxh3_64(bytes: &[u8]) -> (r: u64)
    ensures
        r == xxh3_64_of(bytes@),
{
    xxhash_rust::xxh3::xxh3_64(bytes)
}

/// The fingerprint of a text: the hash of its UTF-8 bytes.
pub open spec fn fingerprint(text: Seq<char>) -> u64 {
    xxh3_64_of(encode_utf8(text))
}

/// A text column as the logic sees it: one optional string per row.
pub type TextModel = Seq<Option<Seq<char>>>;

/// Row `row` is the first null row of `col`.
pub open spec fn first_null(col: TextModel, row: int) -> bool {
    &&& 0 <= row < col.len()
    &&& col[row] is None
    &&& forall|j: int| 0 <= j < row ==> col[j] is Some
}

/// Every row of `col` holds a string.
pub open spec fn all_present(col: TextModel) -> bool {
    forall|i: int| 0 <= i < col.len() ==> col[i] is Some
}

/// The fingerprints of a fully populated column, row by row.
pub open spec fn fingerprints(col: TextModel) -> Seq<u64> {
    Seq::new(col.len(), |i: int| fingerprint(col[i]->Some_0))
}

/// What hashing a column gives: its fingerprints, or the first null row.
pub open spec fn column_hashes(col: TextModel) -> Result<Seq<u64>, ShardError> {
    if all_present(col) {
        Ok(fingerprints(col))
    } else {
        Err(ShardError::NullText((choose|row: int| first_null(col, row)) as usize))
    }
}

/// The view of a hashing result.
pub open spec fn hashes_view(r: Result<Vec<u64>, ShardError>) -> Result<Seq<u64>, ShardError> {
    match r {
        Ok(v) => Ok(v@),
        Err(e) => Err(e),
    }
}

/// Fingerprints one text value; a null value has none.
pub fn hash_text(text: Option<&str>) -> (r: Option<u64>)
    ensures
        match text {
            Some(t) => r == Some(fingerprint(t@)),
            None => r is None,
        },
{
    match text {
        Some(t) => Some(xxh3_64(t.as_bytes())),
        None => None,
    }
}

/// Fingerprints every row of a text column, in row order.
///
/// Fails with the index of the first null row, if there is one.
pub fn hash_column(column: &Vec<Option<String>>) -> (r: Result<Vec<u64>, ShardError>)
    ensures
        hashes_view(r) == column_hashes(column.deep_view()),
        r matches Err(ShardError::NullText(row)) ==> first_null(column.deep_view(), row as int),
{
    let ghost col = column.deep_view();
    let mut hashes: Vec<u64> = Vec::with_capacity(column.len());
    let mut i: usize = 0;
    while i < column.len()
        invariant
            col == column.deep_view(),
            i <= column.len(),
            hashes@.len() == i,
            forall|j: int| 0 <= j < i ==> col[j] is Some,
            forall|j: int| 0 <= j < i ==> hashes@[j] == fingerprint(col[j]->Some_0),
        decreases column.len() - i,
    {
        let text: Option<&str> = match &column[i] {
            Some(s) => Some(s.as_str()),
            None => None,
        };
        match hash_text(text) {
            Some(h) => hashes.push(h),
            None => {
                assert(first_null(col, i as int));
                assert(!all_present(col));
                assert forall|row: int| first_null(col, row) implies row == i by {
                    if row < i {
                    } else if row > i {
                        assert(col[i as int] is Some);
                    }
                }
                return Err(ShardError::NullText(i));
            },
        }
        i = i + 1;
    }
    assert(hashes@ =~= fingerprints(col));
    Ok(hashes)
}

/// Equal texts get equal fingerprints, in any two fully populated columns
/// and at any rows: a fingerprint depends on the text's bytes alone.
pub proof fn lemma_equal_texts_equal_fingerprints(a: TextModel, b: TextModel, i: int, j: int)
    requires
        all_present(a),
        all_present(b),
        0 <= i < a.len(),
        0 <= j < b.len(),
        a[i] == b[j],
    ensures
        column_hashes(a) is Ok,
        column_hashes(b) is Ok,
        column_hashes(a)->Ok_0[i] == column_hashes(b)->Ok_0[j],
{
}

} // verus!
