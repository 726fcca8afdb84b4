//! What a client is sent.
use vstd::prelude::*;
use vstd::utf8::encode_utf8;

use crate::text::{parsed_i64, printed_integers_parse};
use crate::wire::{
    affected_rows, batch_fits, batches_fit, bool_text, cell_fits, cell_text, encoded_batches,
    encoded_row, encoded_rows, field_bytes, fields_bytes, is_dml, is_text_column, leading_count,
    length_bytes, pg_type, row_texts, type_oid, wire_fields, ArrowField, ArrowType, Batch, Cell,
    FieldView, PgType,
};

verus! {

// ---------------------------------------------------------------------------
// Columns
// ---------------------------------------------------------------------------

/// The object identifier that a column of each Arrow type is announced with.
pub proof fn types_have_their_object_identifiers(data_type: ArrowType)
    ensures
        type_oid(pg_type(data_type)) == match data_type {
            ArrowType::Boolean => 16u32,
            ArrowType::Int8 | ArrowType::Int16 => 21,
            ArrowType::Int32 => 23,
            ArrowType::Int64 => 20,
            ArrowType::Float32 => 700,
            ArrowType::Float64 => 701,
            ArrowType::Date32 | ArrowType::Date64 => 1082,
            ArrowType::Timestamp => 1114,
            ArrowType::Binary | ArrowType::LargeBinary => 17,
            ArrowType::Utf8 | ArrowType::LargeUtf8 | ArrowType::Other => 25,
        },
{
}

/// Different PostgreSQL types have different object identifiers.
pub proof fn object_identifiers_are_distinct(a: PgType, b: PgType)
    ensures
        type_oid(a) == type_oid(b) <==> a == b,
{
}

/// The descriptions stand for the columns one by one: each has the name of its
/// own column and the object identifier of that column's type. Its values are
/// sent as texts, and it comes from no table.
pub proof fn descriptions_stand_for_their_columns(schema: Seq<ArrowField>)
    ensures
        wire_fields(schema).len() == schema.len(),
        forall|i: int|
            0 <= i < schema.len() ==> {
                &&& (#[trigger] wire_fields(schema)[i]).name == schema[i].name@
                &&& wire_fields(schema)[i].oid == type_oid(pg_type(schema[i].data_type))
                &&& wire_fields(schema)[i].is_text
                &&& wire_fields(schema)[i].table_id is None
                &&& wire_fields(schema)[i].column_id is None
            },
{
}

/// The description of a column depends on that column alone, and tells its name:
/// two schemas are described alike in a place just where the columns there have
/// the same name and types with the same object identifier.
pub proof fn descriptions_tell_columns_apart(
    a: Seq<ArrowField>,
    b: Seq<ArrowField>,
    i: int,
    j: int,
)
    requires
        0 <= i < a.len(),
        0 <= j < b.len(),
    ensures
        wire_fields(a)[i] == wire_fields(b)[j] <==> {
            &&& a[i].name@ == b[j].name@
            &&& type_oid(pg_type(a[i].data_type)) == type_oid(pg_type(b[j].data_type))
        },
{
}

// ---------------------------------------------------------------------------
// Values
// ---------------------------------------------------------------------------

/// The number that a value is sent as, where it is sent as one: a date as days
/// and a timestamp as microseconds.
pub open spec fn cell_number(cell: Cell) -> Option<int> {
    match cell {
        Cell::Int8(i) => Some(i as int),
        Cell::Int16(i) => Some(i as int),
        Cell::Int32(i) => Some(i as int),
        Cell::Int64(i) => Some(i as int),
        Cell::Date32(days) => Some(days as int),
        Cell::TimestampMillisecond(ms) => Some(1000 * ms),
        Cell::TimestampMicrosecond(us) => Some(us as int),
        _ => None,
    }
}

/// The text of a microsecond timestamp parses back to its microseconds.
pub proof fn microseconds_are_read_back(us: i64)
    ensures
        cell_text(Cell::TimestampMicrosecond(us)) is Some,
        parsed_i64(cell_text(Cell::TimestampMicrosecond(us))->0) == Some(us),
{
    printed_integers_parse(us);
}

/// The text of a millisecond timestamp parses back to its microseconds, a
/// thousand times as many.
pub proof fn milliseconds_are_read_back(ms: i64)
    requires
        i64::MIN <= ms * 1000 <= i64::MAX,
    ensures
        cell_text(Cell::TimestampMillisecond(ms)) is Some,
        parsed_i64(cell_text(Cell::TimestampMillisecond(ms))->0) == Some((ms * 1000) as i64),
{
    printed_integers_parse((ms * 1000) as i64);
}

/// The text of an integer parses back to the integer, and the text of a date to
/// its days.
pub proof fn integers_are_read_back(a: i8, b: i16, c: i32, d: i64)
    ensures
        cell_text(Cell::Int8(a)) is Some,
        parsed_i64(cell_text(Cell::Int8(a))->0) == Some(a as i64),
        cell_text(Cell::Int16(b)) is Some,
        parsed_i64(cell_text(Cell::Int16(b))->0) == Some(b as i64),
        cell_text(Cell::Int32(c)) is Some,
        parsed_i64(cell_text(Cell::Int32(c))->0) == Some(c as i64),
        cell_text(Cell::Int64(d)) is Some,
        parsed_i64(cell_text(Cell::Int64(d))->0) == Some(d),
        cell_text(Cell::Date32(c)) is Some,
        parsed_i64(cell_text(Cell::Date32(c))->0) == Some(c as i64),
{
    printed_integers_parse(a as i64);
    printed_integers_parse(b as i64);
    printed_integers_parse(c as i64);
    printed_integers_parse(d);
}

/// Every value that is sent as a number is sent as a text that parses back to
/// just that number.
pub proof fn numbers_are_read_back(cell: Cell)
    requires
        cell_number(cell) is Some,
        cell_fits(cell),
    ensures
        cell_text(cell) is Some,
        parsed_i64(cell_text(cell)->0) is Some,
        parsed_i64(cell_text(cell)->0)->0 == cell_number(cell)->0,
{
    printed_integers_parse(cell_number(cell)->0 as i64);
}

/// Two values that are sent as numbers have the same text just where they are
/// the same number, so two different values of one kind never have.
pub proof fn different_numbers_have_different_texts(a: Cell, b: Cell)
    requires
        cell_number(a) is Some,
        cell_number(b) is Some,
        cell_fits(a),
        cell_fits(b),
    ensures
        cell_text(a) == cell_text(b) <==> cell_number(a) == cell_number(b),
{
    numbers_are_read_back(a);
    numbers_are_read_back(b);
}

/// The texts of the values that are no numbers: `t` and `f` for truth values,
/// and the text itself for texts, floating-point numbers and what has another
/// type.
pub proof fn texts_are_sent_as_they_are(text: String, b: bool)
    ensures
        cell_text(Cell::Utf8(text)) == Some(text@),
        cell_text(Cell::Float(text)) == Some(text@),
        cell_text(Cell::Other(text)) == Some(text@),
        cell_text(Cell::Boolean(true)) == Some("t"@),
        cell_text(Cell::Boolean(false)) == Some("f"@),
        bool_text(b).len() == 1,
        bool_text(true) != bool_text(false),
{
    reveal_strlit("t");
    reveal_strlit("f");
    assert("t"@ =~= bool_text(true));
    assert("f"@ =~= bool_text(false));
    assert(bool_text(true)[0] != bool_text(false)[0]);
}

/// A value has no text just where it is NULL.
pub proof fn only_null_has_no_text(cell: Cell)
    ensures
        cell_text(cell) is None <==> cell is Null || cell is NullInt64,
{
}

/// A value fits just where its number of microseconds has 64 bits; only a
/// millisecond timestamp can fail to.
pub proof fn microseconds_decide_whether_a_value_fits(cell: Cell)
    ensures
        !(cell is TimestampMillisecond) ==> cell_fits(cell),
        cell is TimestampMillisecond ==> (cell_fits(cell) <==> -0x8000_0000_0000_0000
            <= cell_number(cell)->0 <= 0x7fff_ffff_ffff_ffff),
{
}

// ---------------------------------------------------------------------------
// Rows
// ---------------------------------------------------------------------------

/// The length that four bytes say, the most significant byte first.
pub open spec fn said_length(bytes: Seq<u8>) -> int {
    bytes[0] * 0x100_0000 + bytes[1] * 0x1_0000 + bytes[2] * 0x100 + bytes[3]
}

/// A length has four bytes, which say it, the most significant byte first.
pub proof fn lengths_are_said(n: nat)
    requires
        n <= 0xffff_ffff,
    ensures
        length_bytes(n).len() == 4,
        said_length(length_bytes(n)) == n,
{
    assert(n / 0x100_0000 < 0x100);
    assert(n / 0x100_0000 % 0x100 == n / 0x100_0000);
    assert(n / 0x1_0000 == (n / 0x100_0000) * 0x100 + n / 0x1_0000 % 0x100);
    assert(n / 0x100 == (n / 0x1_0000) * 0x100 + n / 0x100 % 0x100);
    assert(n == (n / 0x100) * 0x100 + n % 0x100);
}

/// A field says how many bytes follow and then holds the text in UTF-8. NULL is
/// four bytes that say -1, with nothing behind them.
pub proof fn a_field_says_its_length(text: Seq<char>)
    requires
        encode_utf8(text).len() <= 0xffff_ffff,
    ensures
        field_bytes(Some(text)).len() == 4 + encode_utf8(text).len(),
        said_length(field_bytes(Some(text))) == encode_utf8(text).len(),
        field_bytes(Some(text)).skip(4) == encode_utf8(text),
        field_bytes(None).len() == 4,
        said_length(field_bytes(None)) == 0x1_0000_0000 - 1,
{
    let n = encode_utf8(text).len();
    lengths_are_said(n);
    assert forall|i: int| 0 <= i < 4 implies field_bytes(Some(text))[i] == length_bytes(n)[i] by {}
    assert(field_bytes(Some(text)).skip(4) =~= encode_utf8(text));
    assert(field_bytes(None)[0] == 0xff);
    assert(field_bytes(None)[1] == 0xff);
    assert(field_bytes(None)[2] == 0xff);
    assert(field_bytes(None)[3] == 0xff);
}

/// The fields of a row follow each other: one more field adds its bytes at the
/// end, and no field no bytes.
pub proof fn fields_follow_each_other(
    values: Seq<Option<Seq<char>>>,
    value: Option<Seq<char>>,
)
    ensures
        fields_bytes(Seq::empty()).len() == 0,
        fields_bytes(values.push(value)) == fields_bytes(values) + field_bytes(value),
{
    assert(values.push(value).drop_last() =~= values);
}

/// A row says how many fields it has, and holds them all.
pub proof fn a_row_counts_its_fields(values: Seq<Option<Seq<char>>>)
    requires
        values.len() <= 0x7fff,
    ensures
        encoded_row(values).fields == values.len(),
        encoded_row(values).bytes == fields_bytes(values),
{
}

/// Of a number of fields that is too large for a row the low 16 bits are kept.
pub proof fn large_rows_keep_their_low_bits(values: Seq<Option<Seq<char>>>)
    requires
        values.len() <= usize::MAX,
    ensures
        (encoded_row(values).fields - values.len()) % 0x1_0000 == 0,
{
    let n: usize = values.len() as usize;
    assert(((n as i16) - n) % 0x1_0000 == 0) by (bit_vector);
}

/// A row of a batch has one text for each column, that of the column's value in
/// that row.
pub proof fn a_row_has_a_text_for_each_column(batch: Batch, row: int)
    ensures
        row_texts(batch, row).len() == batch.columns@.len(),
        forall|c: int|
            0 <= c < batch.columns@.len() ==> #[trigger] row_texts(batch, row)[c] == cell_text(
                batch.columns@[c].cells@[row],
            ),
{
}

/// The rows of a batch are sent one by one: the i-th message holds the texts of
/// the i-th row.
pub proof fn rows_are_sent_one_by_one(batch: Batch, rows: nat, i: int)
    requires
        0 <= i < rows,
    ensures
        encoded_rows(batch, rows as int).len() == rows,
        encoded_rows(batch, rows as int)[i].bytes == fields_bytes(row_texts(batch, i)),
        encoded_rows(batch, rows as int)[i] == encoded_row(row_texts(batch, i)),
{
}

/// Batches are sent one after the other: the rows of two lists of batches are
/// those of the first followed by those of the second, and one batch has the
/// messages of its own rows.
pub proof fn batches_follow_each_other(a: Seq<Batch>, b: Seq<Batch>, batch: Batch)
    ensures
        encoded_batches(Seq::empty()).len() == 0,
        encoded_batches(seq![batch]) == encoded_rows(batch, batch.num_rows as int),
        encoded_batches(a + b) == encoded_batches(a) + encoded_batches(b),
    decreases b.len(),
{
    reveal_with_fuel(encoded_batches, 2);
    assert(seq![batch].drop_last() =~= Seq::empty());
    assert(encoded_batches(seq![batch]) =~= encoded_rows(batch, batch.num_rows as int));
    if b.len() == 0 {
        assert(a + b =~= a);
        assert(encoded_batches(a) + encoded_batches(b) =~= encoded_batches(a));
    } else {
        batches_follow_each_other(a, b.drop_last(), batch);
        assert((a + b).drop_last() =~= a + b.drop_last());
        assert((a + b).last() == b.last());
        assert(encoded_batches(a + b) =~= encoded_batches(a) + encoded_batches(b));
    }
}

/// The message of a row in the middle of a result: it stands right after the
/// messages of the earlier batches and the earlier rows, and holds the texts of
/// that row of that batch.
pub proof fn each_row_has_its_message(batches: Seq<Batch>, b: int, i: int)
    requires
        0 <= b < batches.len(),
        0 <= i < batches[b].num_rows,
    ensures
        encoded_batches(batches.take(b)).len() + i < encoded_batches(batches).len(),
        encoded_batches(batches)[encoded_batches(batches.take(b)).len() + i] == encoded_row(
            row_texts(batches[b], i),
        ),
{
    let before = batches.take(b);
    let one = seq![batches[b]];
    let after = batches.skip(b + 1);
    assert(batches =~= (before + one) + after);
    batches_follow_each_other(before + one, after, batches[b]);
    batches_follow_each_other(before, one, batches[b]);
}

/// A batch can be sent under a schema just where it has no more columns than the
/// schema, and each column has a value for every row, one that fits.
pub proof fn values_decide_whether_a_batch_fits(batch: Batch, schema: Seq<ArrowField>)
    ensures
        batch_fits(batch, wire_fields(schema)) <==> {
            &&& batch.columns@.len() <= schema.len()
            &&& forall|c: int|
                0 <= c < batch.columns@.len() ==> (#[trigger] batch.columns@[c]).cells@.len()
                    >= batch.num_rows
            &&& forall|c: int, i: int|
                0 <= c < batch.columns@.len() && 0 <= i < batch.num_rows ==> cell_fits(
                    #[trigger] batch.columns@[c].cells@[i],
                )
        },
{
    let columns: Seq<FieldView> = wire_fields(schema);
    assert forall|c: int| 0 <= c < columns.len() implies is_text_column(
        #[trigger] columns[c],
    ) by {
        assert(columns[c].oid == type_oid(pg_type(schema[c].data_type)));
    }
    if batch_fits(batch, columns) {
        assert forall|c: int| 0 <= c < batch.columns@.len() implies (
        #[trigger] batch.columns@[c]).cells@.len() >= batch.num_rows by {
            assert(is_text_column(columns[c]));
        }
    }
}

/// A result can be sent just where each of its batches can.
pub proof fn batches_fit_one_by_one(batches: Seq<Batch>, schema: Seq<ArrowField>)
    ensures
        batches_fit(batches, schema) <==> forall|b: int|
            0 <= b < batches.len() ==> batch_fits(#[trigger] batches[b], wire_fields(schema)),
{
}

// ---------------------------------------------------------------------------
// Answers
// ---------------------------------------------------------------------------

/// A statement asked for rows just where its result has two or more columns, or
/// one that is not called `count`. The types of the columns do not matter.
pub proof fn columns_decide_the_answer(schema: Seq<ArrowField>)
    ensures
        schema.len() == 0 ==> is_dml(schema),
        schema.len() == 1 ==> (is_dml(schema) <==> schema[0].name@ == "count"@),
        schema.len() >= 2 ==> !is_dml(schema),
{
}

/// The number of changed rows is the integer in the first place of the result,
/// whatever stands in the other places and whether Arrow marks it as NULL. Where
/// another value or none stands there, it is 0.
pub proof fn the_first_place_counts(batches: Seq<Batch>)
    ensures
        ({
            let there = batches.len() > 0 && batches[0].columns@.len() > 0
                && batches[0].columns@[0].cells@.len() > 0;
            let cell = batches[0].columns@[0].cells@[0];
            &&& there && cell is Int64 ==> leading_count(batches) == Some(cell->Int64_0)
            &&& there && cell is NullInt64 ==> leading_count(batches) == Some(cell->NullInt64_0)
            &&& !there || !(cell is Int64 || cell is NullInt64) ==> leading_count(batches) is None
                && affected_rows(batches) == 0
        }),
{
}

/// A count that is not negative is the number of changed rows, where a machine
/// word can hold it; any other has the same low bits, as many as a word has.
pub proof fn counts_are_kept(batches: Seq<Batch>)
    requires
        leading_count(batches) is Some,
    ensures
        0 <= leading_count(batches)->0 <= usize::MAX ==> affected_rows(batches) == leading_count(
            batches,
        )->0,
        (affected_rows(batches) - leading_count(batches)->0) % 0x1_0000_0000 == 0,
        usize::BITS == 64 ==> (affected_rows(batches) - leading_count(batches)->0)
            % 0x1_0000_0000_0000_0000 == 0,
{
    let n: i64 = leading_count(batches)->0;
    assert(((n as usize) - n) % 0x1_0000_0000 == 0) by (bit_vector);
    assert(usize::BITS == 64 ==> ((n as usize) - n) % 0x1_0000_0000_0000_0000 == 0)
        by (bit_vector);
}

} // verus!
