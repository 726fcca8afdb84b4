//! Query results in the PostgreSQL wire protocol.
//!
//! Results come as batches of Arrow columns. Each row becomes one message whose
//! fields are texts, each preceded by its length.
use std::sync::Arc;

use vstd::prelude::*;
use vstd::utf8::{encode_utf8, encode_utf8_decode_utf8};

use crate::text::{i64_text, int_text, u64_text};

verus! {

// ---------------------------------------------------------------------------
// Types
// ---------------------------------------------------------------------------

/// The types of Arrow columns, as far as they are told apart here.
#[derive(Debug, Clone, Copy, PartialEq, Eq, Structural)]
pub enum ArrowType {
    Boolean,
    Int8,
    Int16,
    Int32,
    Int64,
    Float32,
    Float64,
    Utf8,
    LargeUtf8,
    Date32,
    Date64,
    Timestamp,
    Binary,
    LargeBinary,
    /// Any other type: decimals, lists, structs and so on.
    Other,
}

/// The PostgreSQL types of result columns.
#[derive(Debug, Clone, Copy, PartialEq, Eq, Structural)]
pub enum PgType {
    Bool,
    Int2,
    Int4,
    Int8,
    Float4,
    Float8,
    Text,
    Date,
    Timestamp,
    Bytea,
}

/// The name and the type of an Arrow column.
#[derive(Debug)]
pub struct ArrowField {
    pub name: String,
    pub data_type: ArrowType,
}

/// The PostgreSQL type for an Arrow type. PostgreSQL has no integers of one
/// byte, and what it has no type for is sent as text.
pub open spec fn pg_type(data_type: ArrowType) -> PgType {
    match data_type {
        ArrowType::Boolean => PgType::Bool,
        ArrowType::Int8 => PgType::Int2,
        ArrowType::Int16 => PgType::Int2,
        ArrowType::Int32 => PgType::Int4,
        ArrowType::Int64 => PgType::Int8,
        ArrowType::Float32 => PgType::Float4,
        ArrowType::Float64 => PgType::Float8,
        ArrowType::Utf8 => PgType::Text,
        ArrowType::LargeUtf8 => PgType::Text,
        ArrowType::Date32 => PgType::Date,
        ArrowType::Date64 => PgType::Date,
        ArrowType::Timestamp => PgType::Timestamp,
        ArrowType::Binary => PgType::Bytea,
        ArrowType::LargeBinary => PgType::Bytea,
        ArrowType::Other => PgType::Text,
    }
}

/// The object identifier of a PostgreSQL type.
pub open spec fn type_oid(pg_type: PgType) -> u32 {
    match pg_type {
        PgType::Bool => 16,
        PgType::Bytea => 17,
        PgType::Int8 => 20,
        PgType::Int2 => 21,
        PgType::Int4 => 23,
        PgType::Text => 25,
        PgType::Float4 => 700,
        PgType::Float8 => 701,
        PgType::Date => 1082,
        PgType::Timestamp => 1114,
    }
}

/// Maps an Arrow type to a PostgreSQL type.
pub fn arrow_type_to_pg(data_type: &ArrowType) -> (r: PgType)
    ensures
        r == pg_type(*data_type),
{
    match data_type {
        ArrowType::Boolean => PgType::Bool,
        ArrowType::Int8 => PgType::Int2,
        ArrowType::Int16 => PgType::Int2,
        ArrowType::Int32 => PgType::Int4,
        ArrowType::Int64 => PgType::Int8,
        ArrowType::Float32 => PgType::Float4,
        ArrowType::Float64 => PgType::Float8,
        ArrowType::Utf8 => PgType::Text,
        ArrowType::LargeUtf8 => PgType::Text,
        ArrowType::Date32 => PgType::Date,
        ArrowType::Date64 => PgType::Date,
        ArrowType::Timestamp => PgType::Timestamp,
        ArrowType::Binary => PgType::Bytea,
        ArrowType::LargeBinary => PgType::Bytea,
        ArrowType::Other => PgType::Text,
    }
}

impl PgType {
    /// The object identifier of the type.
    pub fn oid(&self) -> (r: u32)
        ensures
            r == type_oid(*self),
    {
        match self {
            PgType::Bool => 16,
            PgType::Bytea => 17,
            PgType::Int8 => 20,
            PgType::Int2 => 21,
            PgType::Int4 => 23,
            PgType::Text => 25,
            PgType::Float4 => 700,
            PgType::Float8 => 701,
            PgType::Date => 1082,
            PgType::Timestamp => 1114,
        }
    }
}

// ---------------------------------------------------------------------------
// What `pgwire` holds
// ---------------------------------------------------------------------------

/// The type `pgwire::api::results::FieldInfo`.
#[verifier::external_type_specification]
#[verifier::external_body]
pub struct ExFieldInfo(pgwire::api::results::FieldInfo);

/// The type `pgwire::api::results::DataRowEncoder`.
#[verifier::external_type_specification]
#[verifier::external_body]
pub struct ExDataRowEncoder(pgwire::api::results::DataRowEncoder);

/// The type `pgwire::api::results::Tag`.
#[verifier::external_type_specification]
#[verifier::external_body]
pub struct ExTag(pgwire::api::results::Tag);

/// The type `pgwire::messages::data::DataRow`.
#[verifier::external_type_specification]
#[verifier::external_body]
pub struct ExDataRow(pgwire::messages::data::DataRow);

/// The type `pgwire::error::PgWireError`.
#[verifier::external_type_specification]
#[verifier::external_body]
pub struct ExPgWireError(pgwire::error::PgWireError);

/// What the description of a result column says: its name, the table and the
/// column of the table that it comes from, the object identifier of its type,
/// and whether its values are sent as texts.
#[verifier::ext_equal]
pub struct FieldView {
    pub name: Seq<char>,
    pub table_id: Option<i32>,
    pub column_id: Option<i16>,
    pub oid: u32,
    pub is_text: bool,
}

/// What an encoder holds: its columns, and the bytes and the number of the
/// fields that it has encoded since the last row.
#[verifier::ext_equal]
pub struct EncoderView {
    pub columns: Seq<FieldView>,
    pub bytes: Seq<u8>,
    pub fields: nat,
}

/// What a row message holds: the bytes of its fields, and their number, which
/// has 16 bits.
#[verifier::ext_equal]
pub struct RowView {
    pub bytes: Seq<u8>,
    pub fields: i16,
}

/// What the tag of a finished command says.
#[verifier::ext_equal]
pub struct TagView {
    pub command: Seq<char>,
    pub rows: Option<usize>,
}

/// What an error that is sent to the client says.
#[verifier::ext_equal]
pub struct UserErrorView {
    pub severity: Seq<char>,
    pub code: Seq<char>,
    pub message: Seq<char>,
}

/// What a `FieldInfo` holds.
pub uninterp spec fn field_view(info: pgwire::api::results::FieldInfo) -> FieldView;

/// What a `DataRowEncoder` holds.
pub uninterp spec fn encoder_view(encoder: pgwire::api::results::DataRowEncoder) -> EncoderView;

/// What a `DataRow` holds.
pub uninterp spec fn row_view(row: pgwire::messages::data::DataRow) -> RowView;

/// What a `Tag` holds.
pub uninterp spec fn tag_view(tag: pgwire::api::results::Tag) -> TagView;

/// What a `PgWireError` holds, where it is an error for the client.
pub uninterp spec fn user_error_view(error: pgwire::error::PgWireError) -> Option<UserErrorView>;

/// What each description of a sequence says.
pub open spec fn field_views(infos: Seq<pgwire::api::results::FieldInfo>) -> Seq<FieldView> {
    Seq::new(infos.len(), |i: int| field_view(infos[i]))
}

/// Whether values of a column are sent as texts, just as they are: the column
/// has one of the types here, none of which is an array type.
pub open spec fn is_text_column(column: FieldView) -> bool {
    column.is_text && exists|t: PgType| column.oid == #[trigger] type_oid(t)
}

/// Whether the next field of an encoder is sent as a text.
pub open spec fn is_ready(encoder: EncoderView) -> bool {
    encoder.fields < encoder.columns.len() && is_text_column(encoder.columns[encoder.fields as int])
}

/// The four bytes of a length, the most significant first. Of a length that
/// needs more, the low 32 bits are kept.
pub open spec fn length_bytes(n: nat) -> Seq<u8> {
    seq![
        (n / 0x100_0000 % 0x100) as u8,
        (n / 0x1_0000 % 0x100) as u8,
        (n / 0x100 % 0x100) as u8,
        (n % 0x100) as u8,
    ]
}

/// The bytes of a field: its length and its text, or for NULL the length -1.
pub open spec fn field_bytes(value: Option<Seq<char>>) -> Seq<u8> {
    match value {
        Some(text) => length_bytes(encode_utf8(text).len()) + encode_utf8(text),
        None => seq![0xff, 0xff, 0xff, 0xff],
    }
}

/// An encoder after one more field.
pub open spec fn with_field(encoder: EncoderView, value: Option<Seq<char>>) -> EncoderView {
    EncoderView {
        bytes: encoder.bytes + field_bytes(value),
        fields: encoder.fields + 1,
        ..encoder
    }
}

/// Calls `FieldInfo::new` with no table and no column of a table, for values
/// that are sent as texts, with the type that `Type::from_oid` finds: it knows
/// the object identifiers that are admitted here. The result says what it was
/// made of.
#[verifier::external_body]
fn text_field(name: String, oid: u32) -> (r: pgwire::api::results::FieldInfo)
    requires
        exists|t: PgType| oid == #[trigger] type_oid(t),
    ensures
        field_view(r) == (FieldView {
            name: name@,
            table_id: None,
            column_id: None,
            oid,
            is_text: true,
        }),
{
    let datatype = pgwire::api::Type::from_oid(oid).unwrap();
    let format = pgwire::api::results::FieldFormat::Text;
    pgwire::api::results::FieldInfo::new(name, None, None, datatype, format)
}

/// Calls `DataRowEncoder::new`: the encoder has the given columns and has
/// encoded nothing.
#[verifier::external_body]
fn new_encoder(columns: &Arc<Vec<pgwire::api::results::FieldInfo>>) -> (r:
    pgwire::api::results::DataRowEncoder)
    ensures
        encoder_view(r) == (EncoderView {
            columns: field_views(columns@),
            bytes: Seq::empty(),
            fields: 0,
        }),
{
    pgwire::api::results::DataRowEncoder::new(columns.clone())
}

/// Calls `DataRowEncoder::encode_field` on no value: it appends NULL, and does
/// not fail.
#[verifier::external_body]
fn encode_null(encoder: &mut pgwire::api::results::DataRowEncoder) -> (r: Result<
    (),
    pgwire::error::PgWireError,
>)
    requires
        is_ready(encoder_view(*old(encoder))),
    ensures
        r is Ok,
        encoder_view(*final(encoder)) == with_field(encoder_view(*old(encoder)), None),
{
    encoder.encode_field(&None::<i32>)
}

/// Calls `DataRowEncoder::encode_field` on a truth value: in a text column it
/// appends `t` or `f`, and does not fail.
#[verifier::external_body]
fn encode_bool(encoder: &mut pgwire::api::results::DataRowEncoder, value: bool) -> (r: Result<
    (),
    pgwire::error::PgWireError,
>)
    requires
        is_ready(encoder_view(*old(encoder))),
    ensures
        r is Ok,
        encoder_view(*final(encoder)) == with_field(
            encoder_view(*old(encoder)),
            Some(bool_text(value)),
        ),
{
    encoder.encode_field(&value)
}

/// Calls `DataRowEncoder::encode_field` on an integer: in a text column it
/// appends the decimal numeral, and does not fail.
#[verifier::external_body]
fn encode_int(encoder: &mut pgwire::api::results::DataRowEncoder, value: i64) -> (r: Result<
    (),
    pgwire::error::PgWireError,
>)
    requires
        is_ready(encoder_view(*old(encoder))),
    ensures
        r is Ok,
        encoder_view(*final(encoder)) == with_field(
            encoder_view(*old(encoder)),
            Some(int_text(value as int)),
        ),
{
    encoder.encode_field(&value)
}

/// Calls `DataRowEncoder::encode_field` on a text: in a text column that has no
/// array type it appends the text as it is, and does not fail.
#[verifier::external_body]
fn encode_text(encoder: &mut pgwire::api::results::DataRowEncoder, value: &str) -> (r: Result<
    (),
    pgwire::error::PgWireError,
>)
    requires
        is_ready(encoder_view(*old(encoder))),
    ensures
        r is Ok,
        encoder_view(*final(encoder)) == with_field(encoder_view(*old(encoder)), Some(value@)),
{
    encoder.encode_field(&value)
}

/// Calls `DataRowEncoder::take_row`: the row holds the fields that were encoded
/// since the last one, and the encoder is as new. The number of fields is cut
/// to 16 bits.
#[verifier::external_body]
fn take_row(encoder: &mut pgwire::api::results::DataRowEncoder) -> (r:
    pgwire::messages::data::DataRow)
    ensures
        row_view(r) == (RowView {
            bytes: encoder_view(*old(encoder)).bytes,
            fields: encoder_view(*old(encoder)).fields as i16,
        }),
        encoder_view(*final(encoder)) == (EncoderView {
            columns: encoder_view(*old(encoder)).columns,
            bytes: Seq::empty(),
            fields: 0,
        }),
{
    encoder.take_row()
}

/// Calls `Tag::new` and `Tag::with_rows`: the tag has the given command and
/// number of rows.
#[verifier::external_body]
fn new_tag(command: &str, rows: usize) -> (r: pgwire::api::results::Tag)
    ensures
        tag_view(r) == (TagView { command: command@, rows: Some(rows) }),
{
    pgwire::api::results::Tag::new(command).with_rows(rows)
}

/// Calls `ErrorInfo::new` and makes a `PgWireError::UserError` of it: the error
/// for the client has the given severity, code and message.
#[verifier::external_body]
fn new_user_error(severity: String, code: String, message: String) -> (r:
    pgwire::error::PgWireError)
    ensures
        user_error_view(r) == Some(
            UserErrorView { severity: severity@, code: code@, message: message@ },
        ),
{
    let info = pgwire::error::ErrorInfo::new(severity, code, message);
    pgwire::error::PgWireError::UserError(Box::new(info))
}

// ---------------------------------------------------------------------------
// Columns
// ---------------------------------------------------------------------------

/// The descriptions of result columns for some Arrow columns: none of them comes
/// from a column of a PostgreSQL table.
pub open spec fn wire_fields(schema: Seq<ArrowField>) -> Seq<FieldView> {
    Seq::new(
        schema.len(),
        |i: int|
            FieldView {
                name: schema[i].name@,
                table_id: None,
                column_id: None,
                oid: type_oid(pg_type(schema[i].data_type)),
                is_text: true,
            },
    )
}

/// Builds the descriptions of result columns from a schema.
pub fn schema_to_fields(schema: &Vec<ArrowField>) -> (r: Vec<pgwire::api::results::FieldInfo>)
    ensures
        field_views(r@) == wire_fields(schema@),
        r@.len() == schema@.len(),
        forall|i: int|
            0 <= i < schema@.len() ==> {
                &&& field_view(#[trigger] r@[i]).name == schema@[i].name@
                &&& field_view(r@[i]).oid == type_oid(pg_type(schema@[i].data_type))
                &&& field_view(r@[i]).is_text
                &&& field_view(r@[i]).table_id is None
                &&& field_view(r@[i]).column_id is None
            },
{
    let mut fields: Vec<pgwire::api::results::FieldInfo> = Vec::new();
    let mut i: usize = 0;
    while i < schema.len()
        invariant
            i <= schema.len(),
            fields@.len() == i,
            forall|k: int|
                0 <= k < i ==> field_view(#[trigger] fields@[k]) == wire_fields(schema@)[k],
        decreases schema.len() - i,
    {
        let pg = arrow_type_to_pg(&schema[i].data_type);
        assert(type_oid(pg) == type_oid(pg_type(schema@[i as int].data_type)));
        fields.push(text_field(schema[i].name.clone(), pg.oid()));
        i = i + 1;
    }
    assert(field_views(fields@) =~= wire_fields(schema@));
    assert forall|k: int| 0 <= k < schema@.len() implies field_view(#[trigger] fields@[k])
        == wire_fields(schema@)[k] by {}
    fields
}

/// A value in an Arrow column.
#[derive(Debug)]
pub enum Cell {
    Null,
    /// NULL in a column of 64-bit integers, with the number that Arrow keeps in
    /// its place.
    NullInt64(i64),
    Boolean(bool),
    Int8(i8),
    Int16(i16),
    Int32(i32),
    Int64(i64),
    /// A floating-point number, as PostgreSQL writes it.
    Float(String),
    Utf8(String),
    /// Days since 1970.
    Date32(i32),
    TimestampMillisecond(i64),
    TimestampMicrosecond(i64),
    /// A value of any other type, in a readable form.
    Other(String),
}

/// A column of a batch.
#[derive(Debug)]
pub struct Column {
    pub cells: Vec<Cell>,
}

/// A batch of rows, column by column.
#[derive(Debug)]
pub struct Batch {
    pub num_rows: usize,
    pub columns: Vec<Column>,
}

/// The text of a truth value.
pub open spec fn bool_text(b: bool) -> Seq<char> {
    if b {
        seq!['t']
    } else {
        seq!['f']
    }
}

/// The text that is sent for a value: a date as its number of days, a timestamp
/// as its number of microseconds. For NULL there is none.
pub open spec fn cell_text(cell: Cell) -> Option<Seq<char>> {
    match cell {
        Cell::Null => None,
        Cell::NullInt64(_) => None,
        Cell::Boolean(b) => Some(bool_text(b)),
        Cell::Int8(i) => Some(int_text(i as int)),
        Cell::Int16(i) => Some(int_text(i as int)),
        Cell::Int32(i) => Some(int_text(i as int)),
        Cell::Int64(i) => Some(int_text(i as int)),
        Cell::Float(text) => Some(text@),
        Cell::Utf8(text) => Some(text@),
        Cell::Date32(days) => Some(int_text(days as int)),
        Cell::TimestampMillisecond(ms) => Some(int_text(ms * 1000)),
        Cell::TimestampMicrosecond(us) => Some(int_text(us as int)),
        Cell::Other(text) => Some(text@),
    }
}

/// Whether the number of microseconds of a timestamp has 64 bits.
pub open spec fn cell_fits(cell: Cell) -> bool {
    match cell {
        Cell::TimestampMillisecond(ms) => i64::MIN <= ms * 1000 <= i64::MAX,
        _ => true,
    }
}

/// Encodes the value of a column in one row.
pub fn encode_column(
    encoder: &mut pgwire::api::results::DataRowEncoder,
    column: &Column,
    row_idx: usize,
) -> (r: Result<(), pgwire::error::PgWireError>)
    requires
        is_ready(encoder_view(*old(encoder))),
        row_idx < column.cells@.len(),
        cell_fits(column.cells@[row_idx as int]),
    ensures
        r is Ok,
        encoder_view(*final(encoder)) == with_field(
            encoder_view(*old(encoder)),
            cell_text(column.cells@[row_idx as int]),
        ),
{
    match &column.cells[row_idx] {
        Cell::Null => encode_null(encoder),
        Cell::NullInt64(_) => encode_null(encoder),
        Cell::Boolean(b) => encode_bool(encoder, *b),
        Cell::Int8(i) => encode_int(encoder, *i as i64),
        Cell::Int16(i) => encode_int(encoder, *i as i64),
        Cell::Int32(i) => encode_int(encoder, *i as i64),
        Cell::Int64(i) => encode_int(encoder, *i),
        Cell::Float(text) => encode_text(encoder, text.as_str()),
        Cell::Utf8(text) => encode_text(encoder, text.as_str()),
        Cell::Date32(days) => encode_text(encoder, i64_text(*days as i64).as_str()),
        Cell::TimestampMillisecond(ms) => encode_int(encoder, *ms * 1000),
        Cell::TimestampMicrosecond(us) => encode_int(encoder, *us),
        Cell::Other(text) => encode_text(encoder, text.as_str()),
    }
}

// ---------------------------------------------------------------------------
// Rows
// ---------------------------------------------------------------------------

/// The texts that are sent for a row of a batch.
pub open spec fn row_texts(batch: Batch, row: int) -> Seq<Option<Seq<char>>> {
    Seq::new(batch.columns@.len(), |c: int| cell_text(batch.columns@[c].cells@[row]))
}

/// The bytes of some fields, one after the other.
pub open spec fn fields_bytes(values: Seq<Option<Seq<char>>>) -> Seq<u8>
    decreases values.len(),
{
    if values.len() == 0 {
        Seq::empty()
    } else {
        fields_bytes(values.drop_last()) + field_bytes(values.last())
    }
}

/// The message for a row.
pub open spec fn encoded_row(values: Seq<Option<Seq<char>>>) -> RowView {
    RowView {
        bytes: fields_bytes(values),
        fields: #[verifier::truncate]
        (values.len() as i16),
    }
}

/// The messages for the first rows of a batch.
pub open spec fn encoded_rows(batch: Batch, rows: int) -> Seq<RowView> {
    Seq::new(rows as nat, |i: int| encoded_row(row_texts(batch, i)))
}

/// The messages for some batches.
pub open spec fn encoded_batches(batches: Seq<Batch>) -> Seq<RowView>
    decreases batches.len(),
{
    if batches.len() == 0 {
        Seq::empty()
    } else {
        encoded_batches(batches.drop_last()) + encoded_rows(
            batches.last(),
            batches.last().num_rows as int,
        )
    }
}

/// Whether a batch can be sent under the given columns: it has at most as many
/// columns, those have text columns to go into, and each has a value for each
/// row, one that fits.
pub open spec fn batch_fits(batch: Batch, columns: Seq<FieldView>) -> bool {
    &&& batch.columns@.len() <= columns.len()
    &&& forall|c: int|
        0 <= c < batch.columns@.len() ==> is_text_column(#[trigger] columns[c])
            && batch.columns@[c].cells@.len() >= batch.num_rows
    &&& forall|c: int, i: int|
        0 <= c < batch.columns@.len() && 0 <= i < batch.num_rows ==> cell_fits(
            #[trigger] batch.columns@[c].cells@[i],
        )
}

/// The messages of some rows that were encoded without an error.
pub open spec fn row_views(
    rows: Seq<Result<pgwire::messages::data::DataRow, pgwire::error::PgWireError>>,
) -> Seq<Option<RowView>> {
    Seq::new(
        rows.len(),
        |i: int|
            match rows[i] {
                Ok(row) => Some(row_view(row)),
                Err(_) => None,
            },
    )
}

/// Some messages, each of which was encoded without an error.
pub open spec fn all_ok(rows: Seq<RowView>) -> Seq<Option<RowView>> {
    Seq::new(rows.len(), |i: int| Some(rows[i]))
}

/// Encodes one row of a batch. A value that cannot be encoded gives an error of
/// its own, before the row.
fn encode_row(
    encoder: &mut pgwire::api::results::DataRowEncoder,
    batch: &Batch,
    row_idx: usize,
    rows: &mut Vec<Result<pgwire::messages::data::DataRow, pgwire::error::PgWireError>>,
)
    requires
        batch_fits(*batch, encoder_view(*old(encoder)).columns),
        row_idx < batch.num_rows,
        encoder_view(*old(encoder)).bytes.len() == 0,
        encoder_view(*old(encoder)).fields == 0,
    ensures
        encoder_view(*final(encoder)) == encoder_view(*old(encoder)),
        row_views(final(rows)@) == row_views(old(rows)@).push(
            Some(encoded_row(row_texts(*batch, row_idx as int))),
        ),
{
    let ghost before = encoder_view(*encoder);
    let ghost sent = row_views(rows@);
    let ghost texts = row_texts(*batch, row_idx as int);
    let mut col_idx: usize = 0;
    assert(texts.take(0) =~= Seq::empty());
    assert(before.bytes =~= Seq::empty());
    while col_idx < batch.columns.len()
        invariant
            col_idx <= batch.columns.len(),
            row_idx < batch.num_rows,
            batch_fits(*batch, before.columns),
            texts == row_texts(*batch, row_idx as int),
            sent == row_views(rows@),
            encoder_view(*encoder) == (EncoderView {
                columns: before.columns,
                bytes: fields_bytes(texts.take(col_idx as int)),
                fields: col_idx as nat,
            }),
        decreases batch.columns.len() - col_idx,
    {
        let ghost next = texts.take(col_idx + 1);
        assert(next.drop_last() =~= texts.take(col_idx as int));
        assert(next.last() == cell_text(
            batch.columns@[col_idx as int].cells@[row_idx as int],
        ));
        assert(is_text_column(before.columns[col_idx as int]));
        match encode_column(encoder, &batch.columns[col_idx], row_idx) {
            Ok(()) => {},
            Err(error) => {
                rows.push(Err(error));
            },
        }
        col_idx = col_idx + 1;
    }
    assert(texts.take(col_idx as int) =~= texts);
    let row = take_row(encoder);
    rows.push(Ok(row));
    assert(row_views(rows@) =~= sent.push(Some(row_view(row))));
}

/// Encodes the rows of some batches under the given columns.
pub fn record_batches_to_row_stream(
    batches: &Vec<Batch>,
    columns: &Arc<Vec<pgwire::api::results::FieldInfo>>,
) -> (r: Vec<Result<pgwire::messages::data::DataRow, pgwire::error::PgWireError>>)
    requires
        forall|b: int|
            0 <= b < batches@.len() ==> batch_fits(#[trigger] batches@[b], field_views(columns@)),
    ensures
        row_views(r@) == all_ok(encoded_batches(batches@)),
{
    let mut rows: Vec<Result<pgwire::messages::data::DataRow, pgwire::error::PgWireError>> =
        Vec::new();
    let mut b: usize = 0;
    assert(batches@.take(0) =~= Seq::empty());
    assert(row_views(rows@) =~= all_ok(encoded_batches(batches@.take(0))));
    while b < batches.len()
        invariant
            b <= batches.len(),
            forall|k: int|
                0 <= k < batches@.len() ==> batch_fits(
                    #[trigger] batches@[k],
                    field_views(columns@),
                ),
            row_views(rows@) == all_ok(encoded_batches(batches@.take(b as int))),
        decreases batches.len() - b,
    {
        let batch = &batches[b];
        let ghost done = encoded_batches(batches@.take(b as int));
        let mut encoder = new_encoder(columns);
        let ghost fresh = encoder_view(encoder);
        let mut row_idx: usize = 0;
        assert(done + encoded_rows(*batch, 0) =~= done);
        assert(batch_fits(batches@[b as int], field_views(columns@)));
        while row_idx < batch.num_rows
            invariant
                row_idx <= batch.num_rows,
                batch_fits(*batch, fresh.columns),
                fresh.bytes.len() == 0,
                fresh.fields == 0,
                encoder_view(encoder) == fresh,
                row_views(rows@) == all_ok(done + encoded_rows(*batch, row_idx as int)),
            decreases batch.num_rows - row_idx,
        {
            let ghost sent = done + encoded_rows(*batch, row_idx as int);
            encode_row(&mut encoder, batch, row_idx, &mut rows);
            assert(done + encoded_rows(*batch, row_idx + 1) =~= sent.push(
                encoded_row(row_texts(*batch, row_idx as int)),
            ));
            assert(row_views(rows@) =~= all_ok(done + encoded_rows(*batch, row_idx + 1)));
            row_idx = row_idx + 1;
        }
        assert(batches@.take(b + 1).drop_last() =~= batches@.take(b as int));
        b = b + 1;
    }
    assert(batches@.take(b as int) =~= batches@);
    rows
}

/// Tests whether the values of a column fit in the first rows.
fn column_fits(column: &Column, num_rows: usize) -> (r: bool)
    ensures
        r <==> column.cells@.len() >= num_rows && forall|i: int|
            0 <= i < num_rows ==> cell_fits(#[trigger] column.cells@[i]),
{
    if column.cells.len() < num_rows {
        return false;
    }
    let mut i: usize = 0;
    while i < num_rows
        invariant
            i <= num_rows <= column.cells@.len(),
            forall|k: int| 0 <= k < i ==> cell_fits(#[trigger] column.cells@[k]),
        decreases num_rows - i,
    {
        if let Cell::TimestampMillisecond(ms) = &column.cells[i] {
            if ms.checked_mul(1000).is_none() {
                assert(!cell_fits(column.cells@[i as int]));
                return false;
            }
        }
        i = i + 1;
    }
    true
}

/// Tests whether a batch can be sent under the columns of a schema.
fn batch_can_be_sent(batch: &Batch, schema: &Vec<ArrowField>) -> (r: bool)
    ensures
        r == batch_fits(*batch, wire_fields(schema@)),
{
    let ghost columns = wire_fields(schema@);
    if batch.columns.len() > schema.len() {
        return false;
    }
    let mut c: usize = 0;
    while c < batch.columns.len()
        invariant
            c <= batch.columns@.len() <= columns.len(),
            columns == wire_fields(schema@),
            forall|k: int|
                0 <= k < c ==> is_text_column(#[trigger] columns[k])
                    && batch.columns@[k].cells@.len() >= batch.num_rows,
            forall|k: int, i: int|
                0 <= k < c && 0 <= i < batch.num_rows ==> cell_fits(
                    #[trigger] batch.columns@[k].cells@[i],
                ),
        decreases batch.columns.len() - c,
    {
        assert(columns[c as int].oid == type_oid(pg_type(schema@[c as int].data_type)));
        if !column_fits(&batch.columns[c], batch.num_rows) {
            assert(is_text_column(columns[c as int]));
            return false;
        }
        c = c + 1;
    }
    true
}

/// Whether each batch can be sent under the columns of a schema.
pub open spec fn batches_fit(batches: Seq<Batch>, schema: Seq<ArrowField>) -> bool {
    forall|b: int| 0 <= b < batches.len() ==> batch_fits(#[trigger] batches[b], wire_fields(schema))
}

/// Tests whether each batch can be sent under the columns of a schema.
pub fn batches_can_be_sent(batches: &Vec<Batch>, schema: &Vec<ArrowField>) -> (r: bool)
    ensures
        r == batches_fit(batches@, schema@),
{
    let mut b: usize = 0;
    while b < batches.len()
        invariant
            b <= batches.len(),
            forall|k: int|
                0 <= k < b ==> batch_fits(#[trigger] batches@[k], wire_fields(schema@)),
        decreases batches.len() - b,
    {
        if !batch_can_be_sent(&batches[b], schema) {
            return false;
        }
        b = b + 1;
    }
    true
}

// ---------------------------------------------------------------------------
// Answers
// ---------------------------------------------------------------------------

/// The answer to a statement.
pub enum Answer {
    /// The statement changed something: the tag says how many rows.
    Execution(pgwire::api::results::Tag),
    /// The statement asked for rows.
    Query {
        columns: Arc<Vec<pgwire::api::results::FieldInfo>>,
        rows: Vec<Result<pgwire::messages::data::DataRow, pgwire::error::PgWireError>>,
    },
}

/// Whether a result is that of a statement that changes something: it has no
/// column, or just the one that counts the rows.
pub open spec fn is_dml(schema: Seq<ArrowField>) -> bool {
    schema.len() == 0 || (schema.len() == 1 && schema[0].name@ == "count"@)
}

/// The number that a result holds in its first place: the first value of the
/// first column of the first batch, where that is a 64-bit integer. Whether the
/// value is NULL does not matter.
pub open spec fn leading_count(batches: Seq<Batch>) -> Option<i64> {
    if batches.len() > 0 && batches[0].columns@.len() > 0
        && batches[0].columns@[0].cells@.len() > 0 {
        match batches[0].columns@[0].cells@[0] {
            Cell::Int64(n) => Some(n),
            Cell::NullInt64(n) => Some(n),
            _ => None,
        }
    } else {
        None
    }
}

/// The number of rows that a statement changed: the number in the first place of
/// its result, and 0 where there is none. Later values are not added in.
pub open spec fn affected_rows(batches: Seq<Batch>) -> usize {
    match leading_count(batches) {
        Some(n) => #[verifier::truncate]
        (n as usize),
        None => 0,
    }
}

/// Reads the number in the first place of a result.
pub fn first_count(batches: &Vec<Batch>) -> (r: Option<i64>)
    ensures
        r == leading_count(batches@),
{
    if batches.len() > 0 && batches[0].columns.len() > 0 && batches[0].columns[0].cells.len() > 0 {
        match &batches[0].columns[0].cells[0] {
            Cell::Int64(n) => Some(*n),
            Cell::NullInt64(n) => Some(*n),
            _ => None,
        }
    } else {
        None
    }
}

/// Tests whether a result is that of a statement that changes something.
pub fn changes_something(schema: &Vec<ArrowField>) -> (r: bool)
    ensures
        r == is_dml(schema@),
{
    let counter = "count".to_owned();
    schema.len() == 0 || (schema.len() == 1 && schema[0].name == counter)
}

/// Answers a statement, given the schema and the batches of its result.
pub fn execute(schema: &Vec<ArrowField>, batches: &Vec<Batch>) -> (r: Answer)
    requires
        is_dml(schema@) || batches_fit(batches@, schema@),
    ensures
        match r {
            Answer::Execution(tag) => {
                &&& is_dml(schema@)
                &&& tag_view(tag) == (TagView {
                    command: "OK"@,
                    rows: Some(affected_rows(batches@)),
                })
            },
            Answer::Query { columns, rows } => {
                &&& !is_dml(schema@)
                &&& field_views(columns@) == wire_fields(schema@)
                &&& row_views(rows@) == all_ok(encoded_batches(batches@))
            },
        },
{
    if changes_something(schema) {
        let rows: usize = match first_count(batches) {
            Some(n) => #[verifier::truncate]
            (n as usize),
            None => 0,
        };
        Answer::Execution(new_tag("OK", rows))
    } else {
        let columns = Arc::new(schema_to_fields(schema));
        let rows = record_batches_to_row_stream(batches, &columns);
        Answer::Query { columns, rows }
    }
}

/// The error that a client is sent for a statement that failed.
pub fn query_error(message: String) -> (r: pgwire::error::PgWireError)
    ensures
        user_error_view(r) == Some(
            UserErrorView { severity: "ERROR"@, code: "42000"@, message: message@ },
        ),
{
    new_user_error("ERROR".to_owned(), "42000".to_owned(), message)
}

/// The address that a server listens on.
pub fn listen_address(port: u16) -> (r: String)
    ensures
        r@ == "127.0.0.1:"@ + int_text(port as int),
{
    let mut address = "127.0.0.1:".to_owned();
    address.append(u64_text(port as u64).as_str());
    address
}

// ---------------------------------------------------------------------------
// Laws
// ---------------------------------------------------------------------------

/// Whether the text of a field is short enough for its length to be sent.
pub open spec fn is_short(value: Option<Seq<char>>) -> bool {
    match value {
        Some(text) => encode_utf8(text).len() <= i32::MAX,
        None => true,
    }
}

/// The length that four bytes say.
proof fn length_is_read_back(n: nat)
    requires
        n <= i32::MAX,
    ensures
        length_bytes(n)[0] < 0x80,
        n == length_bytes(n)[0] * 0x100_0000 + length_bytes(n)[1] * 0x1_0000 + length_bytes(n)[2]
            * 0x100 + length_bytes(n)[3],
{
    assert(n / 0x100_0000 < 0x80);
    assert(n / 0x100_0000 % 0x100 == n / 0x100_0000);
    assert(n / 0x1_0000 == (n / 0x100_0000) * 0x100 + n / 0x1_0000 % 0x100);
    assert(n / 0x100 == (n / 0x1_0000) * 0x100 + n / 0x100 % 0x100);
    assert(n == (n / 0x100) * 0x100 + n % 0x100);
}

/// The first of some fields stands first in their bytes.
proof fn first_field_stands_first(values: Seq<Option<Seq<char>>>)
    requires
        values.len() > 0,
    ensures
        fields_bytes(values) == field_bytes(values[0]) + fields_bytes(values.drop_first()),
    decreases values.len(),
{
    let rest = values.drop_first();
    if values.len() == 1 {
        assert(values.drop_last() =~= Seq::empty());
        assert(rest =~= Seq::empty());
        assert(fields_bytes(values) =~= field_bytes(values[0]) + fields_bytes(rest));
    } else {
        first_field_stands_first(values.drop_last());
        assert(values.drop_last().drop_first() =~= rest.drop_last());
        assert(fields_bytes(values) =~= field_bytes(values[0]) + fields_bytes(rest));
    }
}

/// What follows a field does not change how the field is read.
proof fn field_is_read_back(
    a: Option<Seq<char>>,
    b: Option<Seq<char>>,
    after_a: Seq<u8>,
    after_b: Seq<u8>,
)
    requires
        is_short(a),
        is_short(b),
        field_bytes(a) + after_a == field_bytes(b) + after_b,
    ensures
        a == b,
        after_a == after_b,
{
    let x = field_bytes(a) + after_a;
    let y = field_bytes(b) + after_b;
    assert(x[0] == y[0] && x[1] == y[1] && x[2] == y[2] && x[3] == y[3]);
    if a is Some {
        length_is_read_back(encode_utf8(a->Some_0).len());
        assert(x[0] == length_bytes(encode_utf8(a->Some_0).len())[0]);
    }
    if b is Some {
        length_is_read_back(encode_utf8(b->Some_0).len());
        assert(y[0] == length_bytes(encode_utf8(b->Some_0).len())[0]);
    }
    if a is Some && b is Some {
        let (s, t) = (encode_utf8(a->Some_0), encode_utf8(b->Some_0));
        assert(x[1] == length_bytes(s.len())[1] && y[1] == length_bytes(t.len())[1]);
        assert(x[2] == length_bytes(s.len())[2] && y[2] == length_bytes(t.len())[2]);
        assert(x[3] == length_bytes(s.len())[3] && y[3] == length_bytes(t.len())[3]);
        assert(s.len() == t.len());
        assert(s =~= x.subrange(4, 4 + s.len() as int));
        assert(t =~= y.subrange(4, 4 + t.len() as int));
        encode_utf8_decode_utf8(a->Some_0);
        encode_utf8_decode_utf8(b->Some_0);
    }
    let n = field_bytes(a).len() as int;
    assert(after_a =~= x.skip(n));
    assert(after_b =~= y.skip(n));
}

/// A client can read back what it is sent: two rows of the same number of
/// columns, with texts short enough for their lengths to be sent, that are sent
/// as the same bytes are the same row.
pub proof fn rows_are_lossless(a: Seq<Option<Seq<char>>>, b: Seq<Option<Seq<char>>>)
    requires
        a.len() == b.len(),
        forall|i: int| 0 <= i < a.len() ==> is_short(#[trigger] a[i]),
        forall|i: int| 0 <= i < b.len() ==> is_short(#[trigger] b[i]),
        encoded_row(a).bytes == encoded_row(b).bytes,
    ensures
        a == b,
    decreases a.len(),
{
    if a.len() > 0 {
        first_field_stands_first(a);
        first_field_stands_first(b);
        field_is_read_back(
            a[0],
            b[0],
            fields_bytes(a.drop_first()),
            fields_bytes(b.drop_first()),
        );
        assert forall|i: int| 0 <= i < a.drop_first().len() implies is_short(
            #[trigger] a.drop_first()[i],
        ) by {
            assert(is_short(a[i + 1]));
        }
        assert forall|i: int| 0 <= i < b.drop_first().len() implies is_short(
            #[trigger] b.drop_first()[i],
        ) by {
            assert(is_short(b[i + 1]));
        }
        rows_are_lossless(a.drop_first(), b.drop_first());
        assert(a =~= seq![a[0]] + a.drop_first());
        assert(b =~= seq![b[0]] + b.drop_first());
    } else {
        assert(a =~= b);
    }
}

/// Every row of every batch is sent, once and in order.
pub proof fn every_row_is_sent(batches: Seq<Batch>, batch: Batch)
    ensures
        encoded_batches(batches.push(batch)) == encoded_batches(batches) + encoded_rows(
            batch,
            batch.num_rows as int,
        ),
        encoded_batches(batches.push(batch)).len() == encoded_batches(batches).len()
            + batch.num_rows,
{
    assert(batches.push(batch).drop_last() =~= batches);
}

} // verus!
