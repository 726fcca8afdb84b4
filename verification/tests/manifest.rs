use std::collections::HashMap;

use apache_avro::types::Value;
use apache_avro::Reader;
use paimon_iceberg::error::MetadataError;
use paimon_iceberg::manifest::{
    manifest_bytes, manifest_list_bytes, IcebergDataFileMeta, IcebergManifestEntry,
    IcebergManifestFileMeta, IcebergPartitionStruct, IcebergPartitionSummary,
    ICEBERG_MANIFEST_ENTRY_SCHEMA, ICEBERG_MANIFEST_LIST_SCHEMA,
};

fn decode(bytes: &[u8]) -> Vec<Value> {
    Reader::new(bytes)
        .expect("a container")
        .map(|value| value.expect("a record"))
        .collect()
}

fn field<'a>(record: &'a Value, name: &str) -> &'a Value {
    match record {
        Value::Record(fields) => &fields.iter().find(|(n, _)| n == name).unwrap().1,
        _ => panic!("not a record"),
    }
}

fn present(value: Value) -> Value {
    Value::Union(1, Box::new(value))
}

fn absent() -> Value {
    Value::Union(0, Box::new(Value::Null))
}

fn entry() -> IcebergManifestEntry {
    IcebergManifestEntry {
        status: 1,
        snapshot_id: Some(42),
        sequence_number: Some(42),
        file_sequence_number: Some(42),
        data_file: IcebergDataFileMeta {
            content: 0,
            file_path: "memory:/tbl/bucket-0/changelog-0.parquet".into(),
            file_format: "parquet".into(),
            partition: IcebergPartitionStruct::default(),
            record_count: 100,
            file_size_in_bytes: 4096,
            null_value_counts: None,
            lower_bounds: None,
            upper_bounds: None,
            referenced_data_file: None,
            content_offset: None,
            content_size_in_bytes: None,
        },
    }
}

fn summary() -> IcebergManifestFileMeta {
    IcebergManifestFileMeta {
        manifest_path: "memory:/meta/uuid-m1.avro".into(),
        manifest_length: 1024,
        partition_spec_id: 0,
        content: 0,
        sequence_number: 5,
        min_sequence_number: 5,
        added_snapshot_id: Some(5),
        added_files_count: 3,
        existing_files_count: 0,
        deleted_files_count: 0,
        added_rows_count: 300,
        existing_rows_count: 0,
        deleted_rows_count: 0,
        partitions: None,
    }
}

#[test]
fn test_iceberg_manifest_entry_avro_roundtrip() {
    let bytes = manifest_bytes(&vec![entry()]).expect("serialize manifest entry");
    assert!(!bytes.is_empty(), "avro bytes should not be empty");

    let decoded = decode(&bytes);
    assert_eq!(decoded.len(), 1);
    let d = &decoded[0];
    assert_eq!(*field(d, "status"), Value::Int(1));
    let file = field(d, "data_file");
    assert_eq!(*field(file, "record_count"), Value::Long(100));
    assert_eq!(
        *field(file, "file_path"),
        Value::String("memory:/tbl/bucket-0/changelog-0.parquet".into())
    );
}

#[test]
fn test_iceberg_manifest_list_avro_roundtrip() {
    let bytes = manifest_list_bytes(&vec![summary()]).expect("serialize manifest list");
    assert!(!bytes.is_empty());

    let decoded = decode(&bytes);
    assert_eq!(decoded.len(), 1);
    assert_eq!(
        *field(&decoded[0], "manifest_path"),
        Value::String("memory:/meta/uuid-m1.avro".into())
    );
    assert_eq!(*field(&decoded[0], "added_files_count"), Value::Int(3));
}

#[test]
fn every_field_of_a_manifest_row_is_read_back() {
    let mut row = entry();
    row.status = -2;
    row.snapshot_id = None;
    row.sequence_number = Some(i64::MIN);
    row.data_file.content = 7;
    row.data_file.file_size_in_bytes = i64::MAX;
    row.data_file.null_value_counts = Some(HashMap::new());
    row.data_file.upper_bounds = Some(HashMap::new());
    row.data_file.referenced_data_file = Some("other \u{1f389}".into());
    row.data_file.content_offset = Some(9);
    row.data_file.content_size_in_bytes = Some(-9);
    let decoded = decode(&manifest_bytes(&vec![entry(), row]).unwrap());
    assert_eq!(decoded.len(), 2);
    let file = Value::Record(vec![
        ("content".into(), Value::Int(7)),
        (
            "file_path".into(),
            Value::String("memory:/tbl/bucket-0/changelog-0.parquet".into()),
        ),
        ("file_format".into(), Value::String("parquet".into())),
        ("partition".into(), Value::Record(vec![])),
        ("record_count".into(), Value::Long(100)),
        ("file_size_in_bytes".into(), Value::Long(i64::MAX)),
        (
            "null_value_counts".into(),
            present(Value::Map(HashMap::new())),
        ),
        ("lower_bounds".into(), absent()),
        ("upper_bounds".into(), present(Value::Map(HashMap::new()))),
        (
            "referenced_data_file".into(),
            present(Value::String("other \u{1f389}".into())),
        ),
        ("content_offset".into(), present(Value::Long(9))),
        ("content_size_in_bytes".into(), present(Value::Long(-9))),
    ]);
    assert_eq!(
        decoded[1],
        Value::Record(vec![
            ("status".into(), Value::Int(-2)),
            ("snapshot_id".into(), absent()),
            ("sequence_number".into(), present(Value::Long(i64::MIN))),
            ("file_sequence_number".into(), present(Value::Long(42))),
            ("data_file".into(), file),
        ])
    );
}

#[test]
fn every_field_of_a_manifest_list_row_is_read_back() {
    let mut row = summary();
    row.added_snapshot_id = None;
    row.partitions = Some(vec![
        IcebergPartitionSummary {
            contains_null: true,
            contains_nan: Some(false),
            lower_bound: Some(vec![0, 255]),
            upper_bound: None,
        },
        IcebergPartitionSummary {
            contains_null: false,
            contains_nan: None,
            lower_bound: None,
            upper_bound: Some(vec![]),
        },
    ]);
    let decoded = decode(&manifest_list_bytes(&vec![row]).unwrap());
    let partitions = Value::Array(vec![
        Value::Record(vec![
            ("contains_null".into(), Value::Boolean(true)),
            ("contains_nan".into(), present(Value::Boolean(false))),
            ("lower_bound".into(), present(Value::Bytes(vec![0, 255]))),
            ("upper_bound".into(), absent()),
        ]),
        Value::Record(vec![
            ("contains_null".into(), Value::Boolean(false)),
            ("contains_nan".into(), absent()),
            ("lower_bound".into(), absent()),
            ("upper_bound".into(), present(Value::Bytes(vec![]))),
        ]),
    ]);
    assert_eq!(
        decoded,
        vec![Value::Record(vec![
            (
                "manifest_path".into(),
                Value::String("memory:/meta/uuid-m1.avro".into())
            ),
            ("manifest_length".into(), Value::Long(1024)),
            ("partition_spec_id".into(), Value::Int(0)),
            ("content".into(), Value::Int(0)),
            ("sequence_number".into(), Value::Long(5)),
            ("min_sequence_number".into(), Value::Long(5)),
            ("added_snapshot_id".into(), absent()),
            ("added_files_count".into(), Value::Int(3)),
            ("existing_files_count".into(), Value::Int(0)),
            ("deleted_files_count".into(), Value::Int(0)),
            ("added_rows_count".into(), Value::Long(300)),
            ("existing_rows_count".into(), Value::Long(0)),
            ("deleted_rows_count".into(), Value::Long(0)),
            ("partitions".into(), present(partitions)),
        ])]
    );
}

#[test]
fn empty_containers_have_no_rows() {
    assert!(decode(&manifest_bytes(&vec![]).unwrap()).is_empty());
    assert!(decode(&manifest_list_bytes(&vec![]).unwrap()).is_empty());
}

#[test]
fn containers_carry_their_schema_and_end_with_their_marker() {
    for (bytes, schema) in [
        (
            manifest_bytes(&vec![entry()]).unwrap(),
            ICEBERG_MANIFEST_ENTRY_SCHEMA,
        ),
        (
            manifest_list_bytes(&vec![summary()]).unwrap(),
            ICEBERG_MANIFEST_LIST_SCHEMA,
        ),
        (
            manifest_list_bytes(&vec![]).unwrap(),
            ICEBERG_MANIFEST_LIST_SCHEMA,
        ),
    ] {
        let expected = apache_avro::Schema::parse_str(schema).unwrap();
        assert_eq!(*Reader::new(&bytes[..]).unwrap().writer_schema(), expected);
        // The marker also ends the header.
        let marker = &bytes[bytes.len() - 16..];
        assert!(bytes.windows(16).any(|window| window == marker));
    }
}

#[test]
fn statistics_by_column_number_are_refused() {
    let mut counts = entry();
    counts.data_file.null_value_counts = Some(HashMap::from([(1, 2)]));
    assert!(!counts.data_file.can_be_written());
    let mut lower = entry();
    lower.data_file.lower_bounds = Some(HashMap::from([(1, vec![2])]));
    let mut upper = entry();
    upper.data_file.upper_bounds = Some(HashMap::from([(1, vec![2])]));
    for row in [counts, lower, upper] {
        let MetadataError::DataInvalid { message } = manifest_bytes(&vec![entry(), row]).unwrap_err();
        assert_eq!(
            message,
            "Avro maps have text keys: statistics by column number cannot be written"
        );
    }
    assert!(entry().data_file.can_be_written());
}
