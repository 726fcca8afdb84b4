use paimon_iceberg::changelog::{
    build_base_schema, build_changelog_schema, build_partition_fields, collect_entries,
    schema_is_convertible, summarize_manifest, total_rows,
};
use paimon_iceberg::manifest::IcebergManifestEntry;
use paimon_iceberg::table::{
    DataField, DataFileMeta, DataType, FileKind, ManifestEntry, TableSchema, TypeRoot,
};

fn column(id: i32, name: &str) -> DataField {
    DataField {
        id,
        name: name.to_owned(),
        data_type: DataType::nullable(TypeRoot::Int),
        description: None,
    }
}

fn table(fields: Vec<DataField>, keys: &[&str]) -> TableSchema {
    TableSchema {
        id: 0,
        fields,
        partition_keys: keys.iter().map(|key| key.to_string()).collect(),
    }
}

fn file(kind: FileKind, name: &str, rows: i64, external_path: Option<&str>) -> ManifestEntry {
    ManifestEntry {
        kind,
        bucket: 3,
        file: DataFileMeta {
            file_name: name.to_owned(),
            file_size: 1024,
            row_count: rows,
            external_path: external_path.map(str::to_owned),
        },
    }
}

fn collect(files: Vec<ManifestEntry>) -> Vec<IcebergManifestEntry> {
    let mut entries = Vec::new();
    collect_entries(&"tbl".to_owned(), 8, &files, &mut entries);
    entries
}

#[test]
fn a_changelog_has_two_more_columns() {
    let schema = table(vec![column(4, "a"), column(2, "b")], &[]);
    assert!(schema_is_convertible(&schema));
    let base = build_base_schema(&schema);
    let changelog = build_changelog_schema(&base);
    let columns: Vec<(i32, &str)> = changelog
        .fields
        .iter()
        .map(|field| (field.id, field.name.as_str()))
        .collect();
    assert_eq!(
        columns,
        vec![(4, "a"), (2, "b"), (5, "_value_kind"), (6, "_sequence_number")]
    );
    assert_eq!(changelog.fields[2].type_val, "int");
    assert_eq!(
        changelog.fields[2].doc.as_deref(),
        Some("Paimon change type: 0=INSERT, 1=UPDATE_BEFORE, 2=UPDATE_AFTER, 3=DELETE")
    );
    assert_eq!(changelog.fields[3].type_val, "long");
    assert_eq!(
        changelog.fields[3].doc.as_deref(),
        Some("Paimon sequence number, monotonically increasing within a checkpoint")
    );
    assert!(!changelog.fields[2].required && !changelog.fields[3].required);
    assert_eq!(changelog.highest_field_id(), 6);
}

#[test]
fn schema_ids_are_cut_to_32_bits() {
    let mut schema = table(vec![], &[]);
    schema.id = (1i64 << 32) + 5;
    assert_eq!(build_base_schema(&schema).schema_id, 5);
    schema.id = 0x8000_0000;
    assert_eq!(build_base_schema(&schema).schema_id, i32::MIN);
}

#[test]
fn partition_fields_are_numbered_from_the_first_partition_id() {
    let schema = table(
        vec![column(1, "a"), column(2, "b"), column(3, "a")],
        &["b", "missing", "a"],
    );
    let fields = build_partition_fields(&schema, &build_base_schema(&schema));
    let described: Vec<(&str, &str, i32, i32)> = fields
        .iter()
        .map(|f| (f.name.as_str(), f.transform.as_str(), f.source_id, f.field_id))
        .collect();
    // Of two columns with one name, the last is meant.
    assert_eq!(
        described,
        vec![("b", "identity", 2, 1000), ("a", "identity", 3, 1001)]
    );
}

#[test]
fn columns_without_room_for_more_are_noticed() {
    assert!(schema_is_convertible(&table(vec![column(i32::MAX - 2, "a")], &[])));
    assert!(!schema_is_convertible(&table(vec![column(i32::MAX - 1, "a")], &[])));
}

#[test]
fn only_added_files_have_rows() {
    let entries = collect(vec![
        file(FileKind::Add, "f1", 10, None),
        file(FileKind::Delete, "f2", 20, None),
        file(FileKind::Add, "f3", 30, Some("gs://bucket/f3")),
    ]);
    assert_eq!(entries.len(), 2);
    assert_eq!(entries[0].status, 1);
    assert_eq!(entries[0].snapshot_id, Some(8));
    assert_eq!(entries[0].sequence_number, Some(8));
    assert_eq!(entries[0].file_sequence_number, Some(8));
    assert_eq!(entries[0].data_file.file_path, "tbl/bucket-3/f1");
    assert_eq!(entries[0].data_file.file_format, "parquet");
    assert_eq!(entries[0].data_file.record_count, 10);
    assert_eq!(entries[0].data_file.file_size_in_bytes, 1024);
    assert_eq!(entries[1].data_file.file_path, "gs://bucket/f3");
    assert_eq!(entries[1].data_file.record_count, 30);
    assert_eq!(total_rows(&entries), Some(40));
}

#[test]
fn rows_that_cannot_be_counted_are_noticed() {
    assert_eq!(total_rows(&vec![]), Some(0));
    let entries = collect(vec![
        file(FileKind::Add, "f1", i64::MAX, None),
        file(FileKind::Add, "f2", 1, None),
    ]);
    assert_eq!(total_rows(&entries), None);
    let entries = collect(vec![
        file(FileKind::Add, "f1", i64::MAX, None),
        file(FileKind::Add, "f2", -1, None),
        file(FileKind::Add, "f3", 1, None),
    ]);
    assert_eq!(total_rows(&entries), Some(i64::MAX));
}

#[test]
fn manifests_are_summarized() {
    let summary = summarize_manifest("m".to_owned(), 77, 8, 2, 40);
    assert_eq!(summary.manifest_path, "m");
    assert_eq!(summary.manifest_length, 77);
    assert_eq!(summary.partition_spec_id, 0);
    assert_eq!(summary.content, 0);
    assert_eq!(summary.sequence_number, 8);
    assert_eq!(summary.min_sequence_number, 8);
    assert_eq!(summary.added_snapshot_id, Some(8));
    assert_eq!(summary.added_files_count, 2);
    assert_eq!(summary.added_rows_count, 40);
    assert_eq!(
        (
            summary.existing_files_count,
            summary.deleted_files_count,
            summary.existing_rows_count,
            summary.deleted_rows_count
        ),
        (0, 0, 0, 0)
    );
    assert!(summary.partitions.is_none());
}
