use std::sync::Arc;

use paimon_iceberg::wire::{
    arrow_type_to_pg, batches_can_be_sent, encode_column, execute, first_count, listen_address, query_error,
    record_batches_to_row_stream, schema_to_fields, Answer, ArrowField, ArrowType, Batch, Cell,
    Column, PgType,
};
use pgwire::api::results::{DataRowEncoder, FieldFormat};
use pgwire::api::Type;
use pgwire::error::PgWireError;
use pgwire::messages::response::CommandComplete;

fn schema(types: &[ArrowType]) -> Vec<ArrowField> {
    types
        .iter()
        .enumerate()
        .map(|(i, data_type)| ArrowField {
            name: format!("c{i}"),
            data_type: *data_type,
        })
        .collect()
}

fn batch(columns: Vec<Vec<Cell>>) -> Batch {
    Batch {
        num_rows: columns.first().map_or(0, |cells| cells.len()),
        columns: columns.into_iter().map(|cells| Column { cells }).collect(),
    }
}

/// The fields of a row: each has a length of four bytes, -1 for NULL.
fn fields(row: &pgwire::messages::data::DataRow) -> Vec<Option<String>> {
    let mut rest: &[u8] = &row.data;
    let mut values = Vec::new();
    while !rest.is_empty() {
        let length = i32::from_be_bytes([rest[0], rest[1], rest[2], rest[3]]);
        rest = &rest[4..];
        if length < 0 {
            values.push(None);
        } else {
            let (text, after) = rest.split_at(length as usize);
            values.push(Some(String::from_utf8(text.to_vec()).unwrap()));
            rest = after;
        }
    }
    assert_eq!(values.len(), row.field_count as usize);
    values
}

fn text(value: &str) -> Option<String> {
    Some(value.to_owned())
}

fn sent(cell: Cell) -> Option<String> {
    let columns = Arc::new(schema_to_fields(&schema(&[ArrowType::Utf8])));
    let mut encoder = DataRowEncoder::new(columns);
    encode_column(&mut encoder, &Column { cells: vec![cell] }, 0).unwrap();
    fields(&encoder.take_row()).remove(0)
}

#[test]
fn arrow_types_have_postgres_types() {
    for (arrow, pg, wire) in [
        (ArrowType::Boolean, PgType::Bool, Type::BOOL),
        (ArrowType::Int8, PgType::Int2, Type::INT2),
        (ArrowType::Int16, PgType::Int2, Type::INT2),
        (ArrowType::Int32, PgType::Int4, Type::INT4),
        (ArrowType::Int64, PgType::Int8, Type::INT8),
        (ArrowType::Float32, PgType::Float4, Type::FLOAT4),
        (ArrowType::Float64, PgType::Float8, Type::FLOAT8),
        (ArrowType::Utf8, PgType::Text, Type::TEXT),
        (ArrowType::LargeUtf8, PgType::Text, Type::TEXT),
        (ArrowType::Date32, PgType::Date, Type::DATE),
        (ArrowType::Date64, PgType::Date, Type::DATE),
        (ArrowType::Timestamp, PgType::Timestamp, Type::TIMESTAMP),
        (ArrowType::Binary, PgType::Bytea, Type::BYTEA),
        (ArrowType::LargeBinary, PgType::Bytea, Type::BYTEA),
        (ArrowType::Other, PgType::Text, Type::TEXT),
    ] {
        assert_eq!(arrow_type_to_pg(&arrow), pg);
        assert_eq!(pg.oid(), wire.oid());
        let infos = schema_to_fields(&schema(&[arrow]));
        assert_eq!(infos.len(), 1);
        assert_eq!(infos[0].name(), "c0");
        assert_eq!(*infos[0].datatype(), wire);
        assert_eq!(infos[0].format(), FieldFormat::Text);
        assert_eq!(infos[0].table_id(), None);
        assert_eq!(infos[0].column_id(), None);
    }
}

#[test]
fn values_are_sent_as_texts() {
    assert_eq!(sent(Cell::Null), None);
    assert_eq!(sent(Cell::NullInt64(5)), None);
    assert_eq!(sent(Cell::Boolean(true)), text("t"));
    assert_eq!(sent(Cell::Boolean(false)), text("f"));
    assert_eq!(sent(Cell::Int8(-128)), text("-128"));
    assert_eq!(sent(Cell::Int16(300)), text("300"));
    assert_eq!(sent(Cell::Int32(i32::MIN)), text("-2147483648"));
    assert_eq!(sent(Cell::Int64(i64::MAX)), text("9223372036854775807"));
    assert_eq!(sent(Cell::Float("1.5".into())), text("1.5"));
    assert_eq!(sent(Cell::Utf8("{\"a\", b}".into())), text("{\"a\", b}"));
    assert_eq!(sent(Cell::Utf8(String::new())), text(""));
    assert_eq!(sent(Cell::Date32(-1)), text("-1"));
    assert_eq!(sent(Cell::TimestampMillisecond(7)), text("7000"));
    assert_eq!(sent(Cell::TimestampMicrosecond(7)), text("7"));
    assert_eq!(sent(Cell::Other("[1, 2]".into())), text("[1, 2]"));
}

#[test]
fn rows_are_sent_in_order() {
    let types = [ArrowType::Int32, ArrowType::Utf8];
    let batches = vec![
        batch(vec![
            vec![Cell::Int32(1), Cell::Null],
            vec![Cell::Utf8("x".into()), Cell::Utf8("\u{e9}".into())],
        ]),
        batch(vec![]),
        batch(vec![vec![Cell::Int32(3)], vec![Cell::Null]]),
    ];
    let columns = Arc::new(schema_to_fields(&schema(&types)));
    let rows: Vec<Vec<Option<String>>> = record_batches_to_row_stream(&batches, &columns)
        .into_iter()
        .map(|row| fields(&row.unwrap()))
        .collect();
    assert_eq!(
        rows,
        vec![
            vec![text("1"), text("x")],
            vec![None, text("\u{e9}")],
            vec![text("3"), None],
        ]
    );
}

#[test]
fn a_row_is_its_fields_with_their_lengths() {
    let columns = Arc::new(schema_to_fields(&schema(&[ArrowType::Utf8, ArrowType::Utf8])));
    let batches = vec![batch(vec![vec![Cell::Utf8("ab".into())], vec![Cell::Null]])];
    let mut rows = record_batches_to_row_stream(&batches, &columns);
    let row = rows.remove(0).unwrap();
    assert_eq!(
        row.data.to_vec(),
        vec![0, 0, 0, 2, b'a', b'b', 255, 255, 255, 255]
    );
    assert_eq!(row.field_count, 2);
}

#[test]
fn batches_that_cannot_be_sent_are_noticed() {
    let one = schema(&[ArrowType::Timestamp]);
    let good = vec![batch(vec![vec![Cell::TimestampMillisecond(
        i64::MAX / 1000,
    )]])];
    assert!(batches_can_be_sent(&good, &one));
    let overflow = vec![batch(vec![vec![Cell::TimestampMillisecond(
        i64::MAX / 1000 + 1,
    )]])];
    assert!(!batches_can_be_sent(&overflow, &one));
    let wide = vec![batch(vec![vec![Cell::Null], vec![Cell::Null]])];
    assert!(!batches_can_be_sent(&wide, &one));
    let short = vec![Batch {
        num_rows: 2,
        columns: vec![Column {
            cells: vec![Cell::Null],
        }],
    }];
    assert!(!batches_can_be_sent(&short, &one));
}

fn tag(schema: &Vec<ArrowField>, batches: &Vec<Batch>) -> String {
    match execute(schema, batches) {
        Answer::Execution(answer) => CommandComplete::from(answer).tag,
        Answer::Query { .. } => panic!("not a query"),
    }
}

#[test]
fn statements_that_change_something_are_answered_with_a_count() {
    let counted = vec![ArrowField {
        name: "count".into(),
        data_type: ArrowType::Int64,
    }];
    let three = vec![
        batch(vec![vec![Cell::Int64(3), Cell::Int64(50)]]),
        batch(vec![vec![Cell::Int64(500)]]),
    ];
    assert_eq!(tag(&counted, &three), "OK 3");
    assert_eq!(tag(&vec![], &three), "OK 3");
    assert_eq!(tag(&counted, &vec![]), "OK 0");
    assert_eq!(tag(&vec![], &vec![]), "OK 0");
    let negative = vec![batch(vec![vec![Cell::Int64(-1)]])];
    assert_eq!(tag(&counted, &negative), format!("OK {}", -1i64 as usize));
    let other = vec![batch(vec![vec![Cell::Int32(4)]])];
    assert_eq!(tag(&counted, &other), "OK 0");
}

#[test]
fn counts_are_read_from_the_first_place() {
    assert_eq!(first_count(&vec![]), None);
    assert_eq!(first_count(&vec![batch(vec![])]), None);
    assert_eq!(first_count(&vec![batch(vec![vec![]])]), None);
    assert_eq!(
        first_count(&vec![batch(vec![vec![Cell::Int64(7)], vec![Cell::Int64(8)]])]),
        Some(7)
    );
    assert_eq!(first_count(&vec![batch(vec![vec![Cell::NullInt64(9)]])]), Some(9));
    assert_eq!(first_count(&vec![batch(vec![vec![Cell::Int32(7)]])]), None);
    assert_eq!(
        first_count(&vec![batch(vec![]), batch(vec![vec![Cell::Int64(7)]])]),
        None
    );
}

#[test]
fn queries_are_answered_with_rows() {
    let other = vec![ArrowField {
        name: "counts".into(),
        data_type: ArrowType::Int64,
    }];
    let batches = vec![batch(vec![vec![Cell::Int64(5)]])];
    assert!(batches_can_be_sent(&batches, &other));
    match execute(&other, &batches) {
        Answer::Execution(_) => panic!("a query"),
        Answer::Query { columns, mut rows } => {
            assert_eq!(columns.len(), 1);
            assert_eq!(columns[0].name(), "counts");
            assert_eq!(rows.len(), 1);
            assert_eq!(fields(&rows.remove(0).unwrap()), vec![text("5")]);
        }
    }
}

#[test]
fn failures_are_reported_to_the_client() {
    match query_error("no such table".into()) {
        PgWireError::UserError(info) => {
            assert_eq!(info.severity, "ERROR");
            assert_eq!(info.code, "42000");
            assert_eq!(info.message, "no such table");
        }
        _ => panic!("not an error for the client"),
    }
}

#[test]
fn servers_listen_on_the_loopback_interface() {
    assert_eq!(listen_address(5432), "127.0.0.1:5432");
    assert_eq!(listen_address(0), "127.0.0.1:0");
    assert_eq!(listen_address(65535), "127.0.0.1:65535");
}
