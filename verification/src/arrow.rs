//! Column arrays, record batches and Parquet images, as `arrow-array` and
//! `parquet` build them.
//!
//! The executable functions of this module are trusted: their contracts say
//! what the outside functions do and are not proved.

use vstd::prelude::*;
use arrow_array::ArrayRef;
use arrow_array::FixedSizeBinaryArray;
use arrow_array::RecordBatch;
use arrow_array::StringArray;
use arrow_array::UInt64Array;
use arrow_schema::ArrowError;
use parquet::arrow::arrow_writer::ArrowWriter;
use parquet::errors::ParquetError;
use parquet::file::properties::WriterProperties;
use std::sync::Arc;

verus! {

#[verifier::external_type_specification]
#[verifier::external_body]
pub struct ExArrowError(ArrowError);

#[verifier::external_type_specification]
#[verifier::external_body]
pub struct ExParquetError(ParquetError);

/// One value of a column.
pub enum Cell {
    U64(u64),
    Bytes(Seq<u8>),
    Text(Seq<char>),
}

/// A column array of `arrow-array`, held as the `ArrayRef` that a record
/// batch takes.
#[verifier::external_body]
pub struct Column {
    array: ArrayRef,
}

/// A record batch of `arrow-array`.
#[verifier::external_body]
pub struct Table {
    batch: RecordBatch,
}

/// The values that a column array holds, first row first.
pub uninterp spec fn column_cells(column: Column) -> Seq<Cell>;

/// The columns of a table in schema order, each with its field name.
pub uninterp spec fn table_columns(table: Table) -> Seq<(Seq<char>, Seq<Cell>)>;

/// What the `ArrowWriter` of the `parquet` version in use does with a table,
/// under default properties but for the number of rows in a row group,
/// which is left unbounded: the bytes it writes, or `None` where it fails.
pub uninterp spec fn parquet_image(table: Table) -> Option<Seq<u8>>;

/// The byte strings that the vectors hold.
pub open spec fn blobs(values: Seq<Vec<u8>>) -> Seq<Seq<u8>> {
    Seq::new(values.len(), |i: int| values[i]@)
}

/// The character sequences that the strings hold.
pub open spec fn texts(values: Seq<String>) -> Seq<Seq<char>> {
    Seq::new(values.len(), |i: int| values[i]@)
}

/// The cells of an unsigned 64-bit column.
pub open spec fn u64_cells(values: Seq<u64>) -> Seq<Cell> {
    Seq::new(values.len(), |i: int| Cell::U64(values[i]))
}

/// The cells of a binary column.
pub open spec fn bytes_cells(values: Seq<Seq<u8>>) -> Seq<Cell> {
    Seq::new(values.len(), |i: int| Cell::Bytes(values[i]))
}

/// The cells of a text column.
pub open spec fn text_cells(values: Seq<Seq<char>>) -> Seq<Cell> {
    Seq::new(values.len(), |i: int| Cell::Text(values[i]))
}

/// Whether the writer can take a cell: a binary cell must not be empty.
pub open spec fn cell_writable(cell: Cell) -> bool {
    match cell {
        Cell::Bytes(bytes) => bytes.len() > 0,
        _ => true,
    }
}

/// Whether the writer can take every cell of the columns.
pub open spec fn writable(columns: Seq<(Seq<char>, Seq<Cell>)>) -> bool {
    forall|c: int, i: int|
        0 <= c < columns.len() && 0 <= i < columns[c].1.len() ==> cell_writable(
            #[trigger] columns[c].1[i],
        )
}

/// Whether every entry has the length of the first one.
pub open spec fn uniform_width(values: Seq<Seq<u8>>) -> bool {
    forall|i: int| 0 <= i < values.len() ==> (#[trigger] values[i]).len() == values[0].len()
}

/// The number of bytes that the UTF-8 encodings of the texts take together.
pub open spec fn text_bytes(values: Seq<Seq<char>>) -> nat
    decreases values.len(),
{
    if values.len() == 0 {
        0
    } else {
        text_bytes(values.drop_last()) + vstd::utf8::encode_utf8(values.last()).len()
    }
}

/// Calls `UInt64Array::from` on a copy of the values. Trusted: the array
/// holds the values in order.
#[verifier::external_body]
pub(crate) fn u64_column(values: &Vec<u64>) -> (column: Column)
    ensures
        column_cells(column) == u64_cells(values@),
{
    Column { array: Arc::new(UInt64Array::from(values.clone())) }
}

/// Calls `FixedSizeBinaryArray::try_from_iter`. Trusted: the call fails on
/// an empty input, on entries of differing length and on a length above
/// `i32::MAX`, and succeeds on every other input; the array then holds the
/// entries in order. Memory that cannot be reserved is left aside, as for
/// every allocation.
#[verifier::external_body]
pub(crate) fn binary_column(values: &Vec<Vec<u8>>) -> (column: Result<Column, ArrowError>)
    ensures
        column is Ok ==> values.len() > 0 && uniform_width(blobs(values@)) && values[0]@.len()
            <= i32::MAX,
        values.len() > 0 && uniform_width(blobs(values@)) && values[0]@.len() <= i32::MAX
            ==> column is Ok,
        column matches Ok(c) ==> column_cells(c) == bytes_cells(blobs(values@)),
{
    let array = FixedSizeBinaryArray::try_from_iter(values.iter())?;
    Ok(Column { array: Arc::new(array) })
}

/// Calls `StringArray::from` on a copy of the strings, which panics when
/// their bytes together exceed `i32::MAX`. Trusted: the array holds the
/// strings in order.
#[verifier::external_body]
pub(crate) fn text_column(values: &Vec<String>) -> (column: Column)
    requires
        text_bytes(texts(values@)) <= i32::MAX,
    ensures
        column_cells(column) == text_cells(texts(values@)),
{
    Column { array: Arc::new(StringArray::from(values.clone())) }
}

/// Calls `RecordBatch::try_from_iter` on the arrays paired with the names.
/// Trusted: the call succeeds exactly when there is a column and all columns
/// have one length, and the batch then holds the columns in the order given,
/// each under its name.
#[verifier::external_body]
pub(crate) fn assemble(names: Vec<String>, columns: Vec<Column>) -> (table: Result<
    Table,
    ArrowError,
>)
    requires
        names.len() == columns.len(),
    ensures
        table is Ok <==> columns.len() > 0 && forall|i: int|
            0 <= i < columns.len() ==> column_cells(#[trigger] columns[i]).len() == column_cells(
                columns[0],
            ).len(),
        table matches Ok(t) ==> table_columns(t) == Seq::new(
            columns.len() as nat,
            |i: int| (names[i]@, column_cells(columns[i])),
        ),
{
    let arrays = columns.into_iter().map(|c| c.array);
    let batch = RecordBatch::try_from_iter(names.into_iter().zip(arrays))?;
    Ok(Table { batch })
}

/// Runs an `ArrowWriter` over an in-memory buffer: `try_new`, `write`,
/// `close`, under default properties with the cap on the rows of a row group
/// lifted (`set_max_row_group_row_count`), so that one row group holds the
/// table. The writer panics on a binary column of width zero, which the
/// `requires` leaves out. Trusted: whether the calls succeed, and the bytes
/// in the buffer when they do, are those that `parquet_image` names.
#[verifier::external_body]
pub(crate) fn encode(table: &Table) -> (image: Result<Vec<u8>, ParquetError>)
    requires
        writable(table_columns(*table)),
    ensures
        image is Err ==> parquet_image(*table) is None,
        image matches Ok(bytes) ==> parquet_image(*table) == Some(bytes@),
{
    let mut bytes = Vec::new();
    let props = WriterProperties::builder().set_max_row_group_row_count(None).build();
    let mut writer = ArrowWriter::try_new(&mut bytes, table.batch.schema(), Some(props))?;
    writer.write(&table.batch)?;
    writer.close()?;
    Ok(bytes)
}

} // verus!
