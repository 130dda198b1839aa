use vstd::prelude::*;

use arrow::array::StringArray;
use arrow::error::ArrowError;
use arrow::ipc::reader::StreamReader;

use crate::error::ShardError;
use crate::hasher::TextModel;

verus! {

/// arrow's `ArrowError`, carried opaquely from the stream reader to its message.
#[verifier::external_type_specification]
#[verifier::external_body]
pub struct ExArrowError(ArrowError);

/// One column of a record batch: its name and, where it is a UTF-8 string
/// column, its values (one optional string per row).
pub struct Column {
    pub name: String,
    pub values: Option<Vec<Option<String>>>,
}

/// A column as the logic sees it: its name, and its strings if it has them.
pub type ColumnModel = (Seq<char>, Option<TextModel>);

impl View for Column {
    type V = ColumnModel;

    open spec fn view(&self) -> ColumnModel {
        (self.name@, self.values.deep_view())
    }
}

/// A decoded record batch: its columns in schema order.
pub struct Batch {
    pub columns: Vec<Column>,
}

impl View for Batch {
    type V = Seq<ColumnModel>;

    open spec fn view(&self) -> Seq<ColumnModel> {
        Seq::new(self.columns@.len(), |i: int| self.columns@[i]@)
    }
}

/// What Arrow's IPC stream reader makes of a byte stream: `None` where it
/// reports an error, `Some(None)` where the stream ends before any record
/// batch, and otherwise the columns of the first record batch.
pub uninterp spec fn ipc_first_batch(bytes: Seq<u8>) -> Option<Option<Seq<ColumnModel>>>;

/// The view of what reading the first batch gave.
pub open spec fn read_view(r: Result<Option<Batch>, ArrowError>) -> Option<Option<Seq<ColumnModel>>> {
    match r {
        Ok(Some(b)) => Some(Some(b@)),
        Ok(None) => Some(None),
        Err(_) => None,
    }
}

/// Relies on arrow's `StreamReader::try_new` (no projection) and one call of its
/// `next`: the schema and the first record batch of an IPC stream, which depend
/// on the bytes alone. Each column keeps its schema name; a `StringArray` column
/// keeps its values.
#[verifier::external_body]
fn read_first_batch(bytes: &[u8]) -> (r: Result<Option<Batch>, ArrowError>)
    ensures
        read_view(r) == ipc_first_batch(bytes@),
{
    let batch = match StreamReader::try_new(bytes, None)?.next() {
        None => return Ok(None),
        Some(b) => b?,
    };
    let columns = batch.schema().fields().iter().zip(batch.columns()).map(|(f, c)| Column {
        name: f.name().clone(),
        values: c.as_any().downcast_ref::<StringArray>().map(|a| a.iter().map(|v| v.map(String::from)).collect()),
    }).collect();
    Ok(Some(Batch { columns }))
}

/// Relies on `ArrowError`'s `Display`: a message for diagnostics.
#[verifier::external_body]
fn arrow_error_message(e: &ArrowError) -> String {
    e.to_string()
}

/// The name of the column that is fingerprinted.
pub open spec fn text_name() -> Seq<char> {
    seq!['t', 'e', 'x', 't']
}

/// Column `i` is the first one named `text`.
pub open spec fn first_text(cols: Seq<ColumnModel>, i: int) -> bool {
    &&& 0 <= i < cols.len()
    &&& cols[i].0 == text_name()
    &&& forall|j: int| 0 <= j < i ==> cols[j].0 != text_name()
}

/// Where the text column of a batch stands.
pub open spec fn text_index(cols: Seq<ColumnModel>) -> Result<int, ShardError> {
    if exists|i: int| first_text(cols, i) {
        Ok(choose|i: int| first_text(cols, i))
    } else {
        Err(ShardError::MissingTextColumn)
    }
}

/// The text column of a batch: the strings of the first column named `text`.
pub open spec fn text_lookup(cols: Seq<ColumnModel>) -> Result<TextModel, ShardError> {
    match text_index(cols) {
        Ok(i) => match cols[i].1 {
            Some(v) => Ok(v),
            None => Err(ShardError::TextNotUtf8),
        },
        Err(e) => Err(e),
    }
}

proof fn lemma_first_text_unique(cols: Seq<ColumnModel>, i: int, k: int)
    requires
        first_text(cols, i),
        first_text(cols, k),
    ensures
        i == k,
{
    if i < k {
        assert(cols[i].0 != text_name());
    } else if k < i {
        assert(cols[k].0 != text_name());
    }
}

/// Finds the index of the first column named `text`.
pub fn text_column_index(batch: &Batch) -> (r: Result<usize, ShardError>)
    ensures
        match r {
            Ok(i) => text_index(batch@) == Ok::<int, ShardError>(i as int) && first_text(batch@, i as int),
            Err(e) => text_index(batch@) == Err::<int, ShardError>(e),
        },
{
    let name = "text".to_owned();
    proof {
        reveal_strlit("text");
        assert(name@ =~= text_name());
    }
    let mut i: usize = 0;
    while i < batch.columns.len()
        invariant
            name@ == text_name(),
            i <= batch.columns@.len(),
            forall|j: int| 0 <= j < i ==> batch@[j].0 != text_name(),
        decreases batch.columns.len() - i,
    {
        if batch.columns[i].name == name {
            assert(first_text(batch@, i as int));
            proof {
                let k = choose|k: int| first_text(batch@, k);
                lemma_first_text_unique(batch@, i as int, k);
            }
            return Ok(i);
        }
        i = i + 1;
    }
    Err(ShardError::MissingTextColumn)
}

/// The text column of a batch: the strings of its first column named `text`.
///
/// Fails where no column is named `text`, or where that column does not hold
/// UTF-8 strings.
pub fn get_text_column(batch: &Batch) -> (r: Result<&Vec<Option<String>>, ShardError>)
    ensures
        match r {
            Ok(v) => text_lookup(batch@) == Ok::<TextModel, ShardError>(v.deep_view()),
            Err(e) => text_lookup(batch@) == Err::<TextModel, ShardError>(e),
        },
{
    let i = text_column_index(batch)?;
    match &batch.columns[i].values {
        Some(v) => Ok(v),
        None => Err(ShardError::TextNotUtf8),
    }
}

/// The view of a decoded text column, or of why there is none.
pub open spec fn text_view(r: Result<Vec<Option<String>>, ShardError>) -> Result<TextModel, ShardError> {
    match r {
        Ok(v) => Ok(v.deep_view()),
        Err(e) => Err(e),
    }
}

/// Decodes the first record batch of an Arrow IPC stream and returns its text
/// column. Later batches are not read.
pub fn decode_text_column(bytes: &[u8]) -> (r: Result<Vec<Option<String>>, ShardError>)
    ensures
        match ipc_first_batch(bytes@) {
            None => r matches Err(ShardError::Malformed(_)),
            Some(None) => r == Err::<Vec<Option<String>>, ShardError>(ShardError::NoBatch),
            Some(Some(cols)) => text_view(r) == text_lookup(cols),
        },
{
    let batch = match read_first_batch(bytes) {
        Err(e) => return Err(ShardError::Malformed(arrow_error_message(&e))),
        Ok(None) => return Err(ShardError::NoBatch),
        Ok(Some(b)) => b,
    };
    let ghost cols = batch@;
    let i = text_column_index(&batch)?;
    let mut columns = batch.columns;
    let column = columns.swap_remove(i);
    assert(column@ == cols[i as int]);
    match column.values {
        Some(v) => Ok(v),
        None => Err(ShardError::TextNotUtf8),
    }
}

/// Wherever the one column named `text` stands among the columns, it is the
/// column that the lookup returns, or rejects for not holding strings.
pub proof fn lemma_text_found_at_any_position(cols: Seq<ColumnModel>, i: int)
    requires
        0 <= i < cols.len(),
        cols[i].0 == text_name(),
        forall|j: int| 0 <= j < cols.len() && j != i ==> cols[j].0 != text_name(),
    ensures
        text_lookup(cols) == match cols[i].1 {
            Some(v) => Ok::<TextModel, ShardError>(v),
            None => Err::<TextModel, ShardError>(ShardError::TextNotUtf8),
        },
{
    assert(first_text(cols, i));
    let k = choose|k: int| first_text(cols, k);
    lemma_first_text_unique(cols, i, k);
}

/// A text column that does not hold UTF-8 strings is rejected, never coerced.
pub proof fn lemma_non_string_text_rejected(cols: Seq<ColumnModel>, i: int)
    requires
        first_text(cols, i),
        cols[i].1 is None,
    ensures
        text_lookup(cols) == Err::<TextModel, ShardError>(ShardError::TextNotUtf8),
{
    let k = choose|k: int| first_text(cols, k);
    lemma_first_text_unique(cols, i, k);
}

} // verus!
