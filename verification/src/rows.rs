//! The rows of a collection as plain values, the table they are encoded as,
//! and what holds of both.

use vstd::prelude::*;
use crate::arrow::bytes_cells;
use crate::arrow::cell_writable;
use crate::arrow::text_bytes;
use crate::arrow::text_cells;
use crate::arrow::u64_cells;
use crate::arrow::uniform_width;
use crate::arrow::writable;
use crate::arrow::Cell;
use crate::event::Event;
use crate::event::MoveType;
use crate::json::json_text;

verus! {

/// The largest number of bytes that the texts of one column may take
/// together: offsets into a text column are signed 32-bit integers.
pub const MAX_TEXT_BYTES: usize = 2147483647;

/// The largest width of an address column: the width of a fixed-width
/// binary column is a signed 32-bit integer.
pub const MAX_ADDRESS_WIDTH: usize = 2147483647;

/// One stored event: the values found at one index of the nine columns.
pub struct Row {
    pub version: u64,
    pub timestamp: u64,
    pub creation_number: u64,
    pub account_address: Seq<u8>,
    pub sequence_number: u64,
    pub module_address: Seq<u8>,
    pub module_name: Seq<char>,
    pub struct_name: Seq<char>,
    pub data: Seq<char>,
}

/// The row that a struct-typed event becomes, given the ledger version and
/// timestamp of its batch and the JSON text of its payload.
pub open spec fn row_of(version: u64, timestamp: u64, event: Event, data: Seq<char>) -> Row {
    Row {
        version,
        timestamp,
        creation_number: event.guid.creation_number,
        account_address: event.guid.account_address@,
        sequence_number: event.sequence_number,
        module_address: match event.typ {
            MoveType::Struct(tag) => tag.address@,
            MoveType::Other => Seq::empty(),
        },
        module_name: match event.typ {
            MoveType::Struct(tag) => tag.module@,
            MoveType::Other => Seq::empty(),
        },
        struct_name: match event.typ {
            MoveType::Struct(tag) => tag.name@,
            MoveType::Other => Seq::empty(),
        },
        data,
    }
}

/// The rows that a batch of struct-typed events becomes, in batch order.
pub open spec fn rows_of(version: u64, timestamp: u64, events: Seq<Event>) -> Seq<Row> {
    Seq::new(
        events.len(),
        |i: int| row_of(version, timestamp, events[i], json_text(events[i].data)),
    )
}

/// Whether every event of the batch has a struct type.
pub open spec fn all_struct(events: Seq<Event>) -> bool {
    forall|i: int| 0 <= i < events.len() ==> (#[trigger] events[i]).typ.is_struct()
}

/// The account address of each row.
pub open spec fn account_addresses(rows: Seq<Row>) -> Seq<Seq<u8>> {
    rows.map_values(|r: Row| r.account_address)
}

/// The declaring address of each row.
pub open spec fn module_addresses(rows: Seq<Row>) -> Seq<Seq<u8>> {
    rows.map_values(|r: Row| r.module_address)
}

/// The module name of each row.
pub open spec fn module_names(rows: Seq<Row>) -> Seq<Seq<char>> {
    rows.map_values(|r: Row| r.module_name)
}

/// The struct name of each row.
pub open spec fn struct_names(rows: Seq<Row>) -> Seq<Seq<char>> {
    rows.map_values(|r: Row| r.struct_name)
}

/// The payload text of each row.
pub open spec fn payloads(rows: Seq<Row>) -> Seq<Seq<char>> {
    rows.map_values(|r: Row| r.data)
}

/// The table that the rows are encoded as: the nine columns in their fixed
/// order, each under its name.
pub open spec fn table_of(rows: Seq<Row>) -> Seq<(Seq<char>, Seq<Cell>)> {
    seq![
        ("version"@, u64_cells(rows.map_values(|r: Row| r.version))),
        ("timestamp"@, u64_cells(rows.map_values(|r: Row| r.timestamp))),
        ("creation_number"@, u64_cells(rows.map_values(|r: Row| r.creation_number))),
        ("account_address"@, bytes_cells(account_addresses(rows))),
        ("sequence_number"@, u64_cells(rows.map_values(|r: Row| r.sequence_number))),
        ("module_address"@, bytes_cells(module_addresses(rows))),
        ("module_name"@, text_cells(module_names(rows))),
        ("struct_name"@, text_cells(struct_names(rows))),
        ("data"@, text_cells(payloads(rows))),
    ]
}

/// Whether the text columns of the rows are small enough for a text column
/// array: each takes at most `MAX_TEXT_BYTES` bytes.
pub open spec fn texts_fit(rows: Seq<Row>) -> bool {
    &&& text_bytes(module_names(rows)) <= MAX_TEXT_BYTES
    &&& text_bytes(struct_names(rows)) <= MAX_TEXT_BYTES
    &&& text_bytes(payloads(rows)) <= MAX_TEXT_BYTES
}

/// Whether all addresses of the rows, in both address columns, have one
/// width.
pub open spec fn addresses_uniform(rows: Seq<Row>) -> bool {
    &&& uniform_width(account_addresses(rows))
    &&& uniform_width(module_addresses(rows))
    &&& rows.len() > 0 ==> rows[0].module_address.len() == rows[0].account_address.len()
}

/// Whether the rows can be encoded as a table: there is a row, all
/// addresses have one width between 1 and `MAX_ADDRESS_WIDTH`, and the text
/// columns fit.
pub open spec fn encodable(rows: Seq<Row>) -> bool {
    &&& rows.len() > 0
    &&& addresses_uniform(rows)
    &&& 0 < rows[0].account_address.len() <= MAX_ADDRESS_WIDTH
    &&& texts_fit(rows)
}

/// The table of rows that can be encoded has no empty binary cell.
pub proof fn lemma_table_writable(rows: Seq<Row>)
    requires
        encodable(rows),
    ensures
        writable(table_of(rows)),
{
    let table = table_of(rows);
    assert forall|c: int, i: int| 0 <= c < table.len() && 0 <= i < table[c].1.len() implies cell_writable(
        #[trigger] table[c].1[i],
    ) by {
        if c == 3 {
            assert(account_addresses(rows)[i].len() == account_addresses(rows)[0].len());
        } else if c == 5 {
            assert(module_addresses(rows)[i].len() == module_addresses(rows)[0].len());
        }
    }
}

/// The bytes of the first `n` texts are among the bytes of all of them.
pub proof fn lemma_text_bytes_prefix(values: Seq<Seq<char>>, n: int)
    requires
        0 <= n <= values.len(),
    ensures
        text_bytes(values.take(n)) <= text_bytes(values),
    decreases values.len() - n,
{
    if n == values.len() {
        assert(values.take(n) =~= values);
    } else {
        lemma_text_bytes_prefix(values, n + 1);
        assert(values.take(n + 1).drop_last() =~= values.take(n));
    }
}

/// Appending a batch keeps every earlier row in its place and adds one row
/// for each event, in batch order, each carrying the version and timestamp
/// of the call and the fields and payload text of its own event.
pub proof fn lemma_appended_rows(before: Seq<Row>, version: u64, timestamp: u64, events: Seq<Event>)
    ensures
        (before + rows_of(version, timestamp, events)).len() == before.len() + events.len(),
        forall|i: int|
            0 <= i < before.len() ==> (before + rows_of(version, timestamp, events))[i]
                == before[i],
        forall|i: int|
            #![trigger events[i]]
            0 <= i < events.len() ==> {
                let row = (before + rows_of(version, timestamp, events))[before.len() + i];
                &&& row == row_of(version, timestamp, events[i], json_text(events[i].data))
                &&& row.version == version
                &&& row.timestamp == timestamp
                &&& row.creation_number == events[i].guid.creation_number
                &&& row.sequence_number == events[i].sequence_number
                &&& row.account_address == events[i].guid.account_address@
                &&& row.data == json_text(events[i].data)
            },
{
}

/// Two batches appended one after the other give the rows of the first
/// followed by the rows of the second.
pub proof fn lemma_appended_twice(
    before: Seq<Row>,
    first_version: u64,
    first_timestamp: u64,
    first: Seq<Event>,
    second_version: u64,
    second_timestamp: u64,
    second: Seq<Event>,
)
    ensures
        ({
            let after = before + rows_of(first_version, first_timestamp, first) + rows_of(
                second_version,
                second_timestamp,
                second,
            );
            &&& after.len() == before.len() + first.len() + second.len()
            &&& forall|i: int|
                #![trigger first[i]]
                0 <= i < first.len() ==> after[before.len() + i] == row_of(
                    first_version,
                    first_timestamp,
                    first[i],
                    json_text(first[i].data),
                )
            &&& forall|i: int|
                #![trigger second[i]]
                0 <= i < second.len() ==> after[before.len() + first.len() + i] == row_of(
                    second_version,
                    second_timestamp,
                    second[i],
                    json_text(second[i].data),
                )
        }),
{
}

/// The table of any rows has the nine columns under their names, in their
/// order: unsigned 64-bit cells in the numeric columns, bytes in the two
/// address columns, text in the last three. Every column has one cell for
/// each row, and the cell is that row's field.
pub proof fn lemma_table_shape(rows: Seq<Row>)
    ensures
        table_of(rows).len() == 9,
        table_of(rows)[0].0 == "version"@,
        table_of(rows)[1].0 == "timestamp"@,
        table_of(rows)[2].0 == "creation_number"@,
        table_of(rows)[3].0 == "account_address"@,
        table_of(rows)[4].0 == "sequence_number"@,
        table_of(rows)[5].0 == "module_address"@,
        table_of(rows)[6].0 == "module_name"@,
        table_of(rows)[7].0 == "struct_name"@,
        table_of(rows)[8].0 == "data"@,
        forall|c: int| 0 <= c < 9 ==> (#[trigger] table_of(rows)[c]).1.len() == rows.len(),
        forall|i: int|
            #![trigger rows[i]]
            0 <= i < rows.len() ==> {
                &&& table_of(rows)[0].1[i] == Cell::U64(rows[i].version)
                &&& table_of(rows)[1].1[i] == Cell::U64(rows[i].timestamp)
                &&& table_of(rows)[2].1[i] == Cell::U64(rows[i].creation_number)
                &&& table_of(rows)[3].1[i] == Cell::Bytes(rows[i].account_address)
                &&& table_of(rows)[4].1[i] == Cell::U64(rows[i].sequence_number)
                &&& table_of(rows)[5].1[i] == Cell::Bytes(rows[i].module_address)
                &&& table_of(rows)[6].1[i] == Cell::Text(rows[i].module_name)
                &&& table_of(rows)[7].1[i] == Cell::Text(rows[i].struct_name)
                &&& table_of(rows)[8].1[i] == Cell::Text(rows[i].data)
            },
{
}

} // verus!
