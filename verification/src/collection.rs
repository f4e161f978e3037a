//! The event collection: nine index-aligned columns, filled batch by batch
//! and encoded as one table.

use vstd::prelude::*;
use crate::arrow::assemble;
use crate::arrow::binary_column;
use crate::arrow::blobs;
use crate::arrow::bytes_cells;
use crate::arrow::column_cells;
use crate::arrow::encode;
use crate::arrow::parquet_image;
use crate::arrow::table_columns;
use crate::arrow::text_bytes;
use crate::arrow::text_column;
use crate::arrow::texts;
use crate::arrow::u64_column;
use crate::arrow::writable;
use crate::arrow::Column;
use crate::arrow::Table;
use crate::error::FlushError;
use crate::error::PushError;
use crate::event::Event;
use crate::event::MoveType;
use crate::json::payload_text;
use crate::rows::account_addresses;
use crate::rows::encodable;
use crate::rows::all_struct;
use crate::rows::lemma_table_writable;
use crate::rows::lemma_text_bytes_prefix;
use crate::rows::module_addresses;
use crate::rows::module_names;
use crate::rows::payloads;
use crate::rows::row_of;
use crate::rows::rows_of;
use crate::rows::struct_names;
use crate::rows::table_of;
use crate::rows::texts_fit;
use crate::rows::Row;
use crate::rows::MAX_TEXT_BYTES;
use arrow_schema::ArrowError;

verus! {

/// Whether the strings of a column fit a text column array.
pub fn fits_text_column(values: &Vec<String>) -> (fits: bool)
    ensures
        fits == (text_bytes(texts(values@)) <= MAX_TEXT_BYTES),
{
    let ghost all = texts(values@);
    let mut total: usize = 0;
    let mut i: usize = 0;
    while i < values.len()
        invariant
            i <= values.len(),
            all == texts(values@),
            total == text_bytes(all.take(i as int)),
            total <= MAX_TEXT_BYTES,
        decreases values.len() - i,
    {
        let n: usize = values[i].as_str().as_bytes().len();
        proof {
            assert(all.take(i + 1).drop_last() =~= all.take(i as int));
            assert(all.take(i + 1).last() == values[i as int]@);
            assert(n == vstd::utf8::encode_utf8(values[i as int]@).len());
        }
        if n > MAX_TEXT_BYTES - total {
            proof {
                lemma_text_bytes_prefix(all, i + 1);
            }
            return false;
        }
        total = total + n;
        i = i + 1;
    }
    proof {
        assert(all.take(i as int) =~= all);
    }
    true
}

/// Events gathered into nine columns of one length.
pub struct EventCollection {
    version: Vec<u64>,
    creation_number: Vec<u64>,
    account_address: Vec<Vec<u8>>,
    sequence_number: Vec<u64>,
    module_address: Vec<Vec<u8>>,
    module_name: Vec<String>,
    struct_name: Vec<String>,
    data: Vec<String>,
    timestamp: Vec<u64>,
}

impl EventCollection {
    /// The nine columns have one length.
    pub closed spec fn wf(&self) -> bool {
        &&& self.timestamp@.len() == self.version@.len()
        &&& self.creation_number@.len() == self.version@.len()
        &&& self.account_address@.len() == self.version@.len()
        &&& self.sequence_number@.len() == self.version@.len()
        &&& self.module_address@.len() == self.version@.len()
        &&& self.module_name@.len() == self.version@.len()
        &&& self.struct_name@.len() == self.version@.len()
        &&& self.data@.len() == self.version@.len()
    }

    /// The stored rows, oldest first.
    pub closed spec fn view(&self) -> Seq<Row> {
        Seq::new(
            self.version@.len(),
            |i: int|
                Row {
                    version: self.version@[i],
                    timestamp: self.timestamp@[i],
                    creation_number: self.creation_number@[i],
                    account_address: self.account_address@[i]@,
                    sequence_number: self.sequence_number@[i],
                    module_address: self.module_address@[i]@,
                    module_name: self.module_name@[i]@,
                    struct_name: self.struct_name@[i]@,
                    data: self.data@[i]@,
                },
        )
    }

    /// An empty collection.
    pub fn new() -> (collection: EventCollection)
        ensures
            collection.wf(),
            collection@ == Seq::<Row>::empty(),
    {
        let collection = EventCollection {
            version: Vec::new(),
            creation_number: Vec::new(),
            account_address: Vec::new(),
            sequence_number: Vec::new(),
            module_address: Vec::new(),
            module_name: Vec::new(),
            struct_name: Vec::new(),
            data: Vec::new(),
            timestamp: Vec::new(),
        };
        assert(collection@ =~= Seq::<Row>::empty());
        collection
    }

    /// The number of stored rows.
    pub fn len(&self) -> (n: usize)
        requires
            self.wf(),
        ensures
            n == self@.len(),
    {
        self.version.len()
    }

    /// Whether no row is stored.
    pub fn is_empty(&self) -> (empty: bool)
        requires
            self.wf(),
        ensures
            empty == (self@.len() == 0),
    {
        self.version.len() == 0
    }

    /// Stores one event, given what serialising its payload returned.
    ///
    /// A failed serialisation and a type descriptor that is no struct type
    /// are refused, in that order, with `index` in the error; the collection
    /// is then unchanged. Otherwise the event's row is added at the end.
    pub fn push_event(
        &mut self,
        version: u64,
        timestamp: u64,
        event: &Event,
        payload: Result<String, serde_json::Error>,
        index: usize,
    ) -> (pushed: Result<(), PushError>)
        requires
            old(self).wf(),
        ensures
            final(self).wf(),
            payload is Err ==> pushed == Err::<(), PushError>(PushError::Serialization { index }),
            payload is Ok && !event.typ.is_struct() ==> pushed == Err::<(), PushError>(
                PushError::InvalidMoveType { index },
            ),
            payload is Ok && event.typ.is_struct() ==> pushed is Ok,
            pushed is Err ==> *final(self) == *old(self),
            pushed is Ok ==> (payload matches Ok(text) && final(self)@ == old(self)@.push(
                row_of(version, timestamp, *event, text@),
            )),
    {
        let text = match payload {
            Ok(text) => text,
            Err(_) => {
                return Err(PushError::Serialization { index });
            },
        };
        match &event.typ {
            MoveType::Struct(tag) => {
                let account = copy_bytes(&event.guid.account_address);
                let address = copy_bytes(&tag.address);
                self.version.push(version);
                self.timestamp.push(timestamp);
                self.creation_number.push(event.guid.creation_number);
                self.account_address.push(account);
                self.sequence_number.push(event.sequence_number);
                self.data.push(text);
                self.module_address.push(address);
                self.module_name.push(tag.module.clone());
                self.struct_name.push(tag.name.clone());
                assert(self@ =~= old(self)@.push(row_of(version, timestamp, *event, text@)));
                Ok(())
            },
            MoveType::Other => Err(PushError::InvalidMoveType { index }),
        }
    }

    /// Moves the rows of `staged` to the end of this collection.
    fn absorb(&mut self, staged: EventCollection)
        requires
            old(self).wf(),
            staged.wf(),
        ensures
            final(self).wf(),
            final(self)@ == old(self)@ + staged@,
    {
        let mut staged = staged;
        let ghost rows = staged@;
        self.version.append(&mut staged.version);
        self.timestamp.append(&mut staged.timestamp);
        self.creation_number.append(&mut staged.creation_number);
        self.account_address.append(&mut staged.account_address);
        self.sequence_number.append(&mut staged.sequence_number);
        self.module_address.append(&mut staged.module_address);
        self.module_name.append(&mut staged.module_name);
        self.struct_name.append(&mut staged.struct_name);
        self.data.append(&mut staged.data);
        assert(self@ =~= old(self)@ + rows);
    }

    /// Each column is the projection of the rows on its field.
    proof fn lemma_columns(&self)
        requires
            self.wf(),
        ensures
            self.version@ == self@.map_values(|r: Row| r.version),
            self.timestamp@ == self@.map_values(|r: Row| r.timestamp),
            self.creation_number@ == self@.map_values(|r: Row| r.creation_number),
            self.sequence_number@ == self@.map_values(|r: Row| r.sequence_number),
            blobs(self.account_address@) == account_addresses(self@),
            blobs(self.module_address@) == module_addresses(self@),
            texts(self.module_name@) == module_names(self@),
            texts(self.struct_name@) == struct_names(self@),
            texts(self.data@) == payloads(self@),
    {
        assert(self.version@ =~= self@.map_values(|r: Row| r.version));
        assert(self.timestamp@ =~= self@.map_values(|r: Row| r.timestamp));
        assert(self.creation_number@ =~= self@.map_values(|r: Row| r.creation_number));
        assert(self.sequence_number@ =~= self@.map_values(|r: Row| r.sequence_number));
        assert(blobs(self.account_address@) =~= account_addresses(self@));
        assert(blobs(self.module_address@) =~= module_addresses(self@));
        assert(texts(self.module_name@) =~= module_names(self@));
        assert(texts(self.struct_name@) =~= struct_names(self@));
        assert(texts(self.data@) =~= payloads(self@));
    }

    /// The ledger version of each row.
    pub fn version(&self) -> (column: &Vec<u64>)
        requires
            self.wf(),
        ensures
            column@ == self@.map_values(|r: Row| r.version),
    {
        proof {
            self.lemma_columns();
        }
        &self.version
    }

    /// The ledger timestamp of each row.
    pub fn timestamp(&self) -> (column: &Vec<u64>)
        requires
            self.wf(),
        ensures
            column@ == self@.map_values(|r: Row| r.timestamp),
    {
        proof {
            self.lemma_columns();
        }
        &self.timestamp
    }

    /// The creation number of each row.
    pub fn creation_number(&self) -> (column: &Vec<u64>)
        requires
            self.wf(),
        ensures
            column@ == self@.map_values(|r: Row| r.creation_number),
    {
        proof {
            self.lemma_columns();
        }
        &self.creation_number
    }

    /// The owning account's address of each row.
    pub fn account_address(&self) -> (column: &Vec<Vec<u8>>)
        requires
            self.wf(),
        ensures
            blobs(column@) == account_addresses(self@),
    {
        proof {
            self.lemma_columns();
        }
        &self.account_address
    }

    /// The sequence number of each row.
    pub fn sequence_number(&self) -> (column: &Vec<u64>)
        requires
            self.wf(),
        ensures
            column@ == self@.map_values(|r: Row| r.sequence_number),
    {
        proof {
            self.lemma_columns();
        }
        &self.sequence_number
    }

    /// The declaring address of each row's struct type.
    pub fn module_address(&self) -> (column: &Vec<Vec<u8>>)
        requires
            self.wf(),
        ensures
            blobs(column@) == module_addresses(self@),
    {
        proof {
            self.lemma_columns();
        }
        &self.module_address
    }

    /// The module name of each row's struct type.
    pub fn module_name(&self) -> (column: &Vec<String>)
        requires
            self.wf(),
        ensures
            texts(column@) == module_names(self@),
    {
        proof {
            self.lemma_columns();
        }
        &self.module_name
    }

    /// The name of each row's struct type.
    pub fn struct_name(&self) -> (column: &Vec<String>)
        requires
            self.wf(),
        ensures
            texts(column@) == struct_names(self@),
    {
        proof {
            self.lemma_columns();
        }
        &self.struct_name
    }

    /// The JSON text of each row's payload.
    pub fn data(&self) -> (column: &Vec<String>)
        requires
            self.wf(),
        ensures
            texts(column@) == payloads(self@),
    {
        proof {
            self.lemma_columns();
        }
        &self.data
    }

    /// Builds the table of the stored rows: `None` for an empty collection,
    /// otherwise the nine column arrays under their names, in their order.
    ///
    /// Rows that cannot be encoded are refused: addresses of more than one
    /// width, in one address column or between the two; addresses of width
    /// zero or above `MAX_ADDRESS_WIDTH`; a text column of more than
    /// `MAX_TEXT_BYTES` bytes. All other rows give their table.
    pub fn to_table(&self) -> (table: Result<Option<Table>, FlushError>)
        requires
            self.wf(),
        ensures
            self@.len() == 0 <==> table matches Ok(None),
            encodable(self@) ==> table is Ok,
            self@.len() > 0 && !encodable(self@) ==> table is Err,
            table is Err ==> table matches Err(FlushError::Encoding),
            table matches Ok(Some(t)) ==> table_columns(t) == table_of(self@),
    {
        proof {
            self.lemma_columns();
        }
        if self.version.is_empty() {
            return Ok(None);
        }
        if !fits_text_column(&self.module_name) || !fits_text_column(&self.struct_name)
            || !fits_text_column(&self.data) {
            return Err(FlushError::Encoding);
        }
        let width: usize = self.account_address[0].len();
        if width == 0 || self.module_address[0].len() != width {
            return Err(FlushError::Encoding);
        }
        proof {
            assert(blobs(self.account_address@)[0] == self@[0].account_address);
            assert(blobs(self.module_address@)[0] == self@[0].module_address);
        }
        let account_address = binary_column(&self.account_address);
        let module_address = binary_column(&self.module_address);
        match self.table_with(account_address, module_address) {
            Ok(table) => Ok(Some(table)),
            Err(error) => Err(error),
        }
    }

    /// Builds the table of the stored rows around the two address columns,
    /// given what building each of them returned.
    ///
    /// If either failed, so does the table. Otherwise the numeric and text
    /// columns are built, and the nine are assembled under their names.
    pub fn table_with(
        &self,
        account_address: Result<Column, ArrowError>,
        module_address: Result<Column, ArrowError>,
    ) -> (table: Result<Table, FlushError>)
        requires
            self.wf(),
            self@.len() > 0,
            texts_fit(self@),
            account_address matches Ok(column) ==> column_cells(column) == bytes_cells(
                account_addresses(self@),
            ),
            module_address matches Ok(column) ==> column_cells(column) == bytes_cells(
                module_addresses(self@),
            ),
        ensures
            account_address is Err || module_address is Err ==> table matches Err(
                FlushError::Encoding,
            ),
            account_address is Ok && module_address is Ok ==> (table matches Ok(t)
                && table_columns(t) == table_of(self@)),
    {
        proof {
            self.lemma_columns();
        }
        let account_address = match account_address {
            Ok(column) => column,
            Err(_) => {
                return Err(FlushError::Encoding);
            },
        };
        let module_address = match module_address {
            Ok(column) => column,
            Err(_) => {
                return Err(FlushError::Encoding);
            },
        };
        let mut names: Vec<String> = Vec::new();
        let mut columns: Vec<Column> = Vec::new();
        names.push("version".to_owned());
        columns.push(u64_column(&self.version));
        names.push("timestamp".to_owned());
        columns.push(u64_column(&self.timestamp));
        names.push("creation_number".to_owned());
        columns.push(u64_column(&self.creation_number));
        names.push("account_address".to_owned());
        columns.push(account_address);
        names.push("sequence_number".to_owned());
        columns.push(u64_column(&self.sequence_number));
        names.push("module_address".to_owned());
        columns.push(module_address);
        names.push("module_name".to_owned());
        columns.push(text_column(&self.module_name));
        names.push("struct_name".to_owned());
        columns.push(text_column(&self.struct_name));
        names.push("data".to_owned());
        columns.push(text_column(&self.data));
        let ghost paired = Seq::new(
            columns@.len(),
            |i: int| (names@[i]@, column_cells(columns@[i])),
        );
        proof {
            assert(paired =~= table_of(self@));
        }
        match assemble(names, columns) {
            Ok(table) => Ok(table),
            Err(_) => Err(FlushError::Encoding),
        }
    }

    /// Encodes the stored rows as the bytes of a Parquet file: `None` for an
    /// empty collection, for which no file is to be written, otherwise the
    /// image of the table that `to_table` builds.
    ///
    /// Rows that `to_table` refuses give `FlushError::Encoding`. For all
    /// other rows the writer decides: its bytes are returned, and where it
    /// fails the error is `FlushError::Write`.
    pub fn to_parquet(&self) -> (image: Result<Option<Vec<u8>>, FlushError>)
        requires
            self.wf(),
        ensures
            self@.len() == 0 <==> image matches Ok(None),
            self@.len() > 0 && !encodable(self@) <==> (image matches Err(FlushError::Encoding)),
            image matches Err(FlushError::Write) ==> exists|t: Table| #[trigger]
                table_columns(t) == table_of(self@) && parquet_image(t) is None,
            image matches Ok(Some(bytes)) ==> exists|t: Table| #[trigger]
                table_columns(t) == table_of(self@) && parquet_image(t) == Some(bytes@),
    {
        match self.to_table() {
            Ok(None) => Ok(None),
            Ok(Some(table)) => {
                proof {
                    lemma_table_writable(self@);
                }
                match write_table(&table) {
                    Ok(bytes) => Ok(Some(bytes)),
                    Err(error) => Err(error),
                }
            },
            Err(error) => Err(error),
        }
    }

    /// Appends a batch of events, all under one ledger version and timestamp.
    ///
    /// The batch is stored whole or not at all. Events are taken in order;
    /// for each, the payload is serialised and the type descriptor is then
    /// checked. The call succeeds exactly when every event has a struct
    /// type. Otherwise the first event that has none ends the call with an
    /// error that carries its index, and the collection is left as it was.
    pub fn push(&mut self, version: u64, timestamp: u64, events: &Vec<Event>) -> (pushed: Result<
        (),
        PushError,
    >)
        requires
            old(self).wf(),
        ensures
            final(self).wf(),
            pushed is Ok <==> all_struct(events@),
            pushed is Ok ==> final(self)@ == old(self)@ + rows_of(version, timestamp, events@),
            pushed is Err ==> *final(self) == *old(self),
            events@.len() == 0 ==> pushed is Ok && final(self)@ == old(self)@,
            pushed matches Err(error) ==> error is InvalidMoveType,
            pushed matches Err(PushError::InvalidMoveType { index }) ==> index < events@.len()
                && !events@[index as int].typ.is_struct() && all_struct(
                events@.take(index as int),
            ),
    {
        let mut staged = EventCollection::new();
        let mut i: usize = 0;
        while i < events.len()
            invariant
                i <= events.len(),
                *self == *old(self),
                old(self).wf(),
                staged.wf(),
                staged@ == rows_of(version, timestamp, events@.take(i as int)),
                all_struct(events@.take(i as int)),
            decreases events.len() - i,
        {
            let event = &events[i];
            let payload = payload_text(&event.data);
            match staged.push_event(version, timestamp, event, payload, i) {
                Ok(()) => {},
                Err(error) => {
                    return Err(error);
                },
            }
            proof {
                assert(events@.take(i + 1) =~= events@.take(i as int).push(events@[i as int]));
                assert(staged@ =~= rows_of(version, timestamp, events@.take(i + 1)));
            }
            i = i + 1;
        }
        proof {
            assert(events@.take(i as int) =~= events@);
            assert(old(self)@ + Seq::<Row>::empty() =~= old(self)@);
        }
        self.absorb(staged);
        Ok(())
    }
}

/// Encodes a table as the bytes of a Parquet file with one row group. The
/// table must hold no empty binary cell. A failure of the writer is
/// reported as `FlushError::Write`.
pub fn write_table(table: &Table) -> (image: Result<Vec<u8>, FlushError>)
    requires
        writable(table_columns(*table)),
    ensures
        image matches Ok(bytes) ==> parquet_image(*table) == Some(bytes@),
        image is Err ==> image matches Err(FlushError::Write),
        image is Err ==> parquet_image(*table) is None,
{
    match encode(table) {
        Ok(bytes) => Ok(bytes),
        Err(_) => Err(FlushError::Write),
    }
}

/// A copy of a byte vector.
fn copy_bytes(source: &Vec<u8>) -> (copy: Vec<u8>)
    ensures
        copy@ == source@,
{
    let copy = source.clone();
    assert(copy@ =~= source@);
    copy
}

} // verus!
