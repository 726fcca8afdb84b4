//! The rows of Iceberg manifests and manifest lists, and their Avro form.
use std::collections::HashMap;

use vstd::prelude::*;

use crate::avro::{
    add_field, avro_absent, avro_array, avro_boolean, avro_bytes, avro_container, avro_contents,
    avro_empty_map, avro_fields, avro_int, avro_long, avro_record, avro_string, avro_tree,
    avro_trees, avro_union, block_marker, write_container, Avro,
};
use crate::error::MetadataError;
use crate::table::{copy_text, text_of};

verus! {

/// The Avro schema of a row of a manifest list ([`IcebergManifestFileMeta`]).
pub const ICEBERG_MANIFEST_LIST_SCHEMA: &'static str = r#"{
  "type": "record",
  "name": "manifest_file",
  "namespace": "org.apache.paimon.avro.generated",
  "fields": [
    {"name": "manifest_path",         "type": "string",          "field-id": 500},
    {"name": "manifest_length",       "type": "long",            "field-id": 501},
    {"name": "partition_spec_id",     "type": "int",             "field-id": 502},
    {"name": "content",               "type": "int",             "field-id": 517},
    {"name": "sequence_number",       "type": "long",            "field-id": 515},
    {"name": "min_sequence_number",   "type": "long",            "field-id": 516},
    {"name": "added_snapshot_id",     "type": ["null", "long"],  "default": null, "field-id": 503},
    {"name": "added_files_count",     "type": "int",             "field-id": 504},
    {"name": "existing_files_count",  "type": "int",             "field-id": 505},
    {"name": "deleted_files_count",   "type": "int",             "field-id": 506},
    {"name": "added_rows_count",      "type": "long",            "field-id": 512},
    {"name": "existing_rows_count",   "type": "long",            "field-id": 513},
    {"name": "deleted_rows_count",    "type": "long",            "field-id": 514},
    {"name": "partitions", "type": ["null", {
      "type": "array",
      "items": {
        "type": "record",
        "name": "r508",
        "fields": [
          {"name": "contains_null", "type": "boolean",          "field-id": 509},
          {"name": "contains_nan",  "type": ["null", "boolean"],"default": null, "field-id": 518},
          {"name": "lower_bound",   "type": ["null", "bytes"],  "default": null, "field-id": 510},
          {"name": "upper_bound",   "type": ["null", "bytes"],  "default": null, "field-id": 511}
        ]
      }
    }], "default": null, "field-id": 507}
  ]
}"#;

/// The Avro schema of a row of a manifest ([`IcebergManifestEntry`]).
///
/// The `partition` field is a record without fields: readers expect a record
/// there, and an unpartitioned table has no partition fields.
pub const ICEBERG_MANIFEST_ENTRY_SCHEMA: &'static str = r#"{
  "type": "record",
  "name": "manifest_entry",
  "namespace": "org.apache.paimon.avro.generated",
  "fields": [
    {"name": "status",               "type": "int"},
    {"name": "snapshot_id",          "type": ["null", "long"],   "default": null},
    {"name": "sequence_number",      "type": ["null", "long"],   "default": null},
    {"name": "file_sequence_number", "type": ["null", "long"],   "default": null},
    {"name": "data_file",            "type": {
      "type": "record",
      "name": "r2",
      "fields": [
        {"name": "content",               "type": "int"},
        {"name": "file_path",             "type": "string"},
        {"name": "file_format",           "type": "string"},
        {"name": "partition",             "type": {"type": "record", "name": "r102", "fields": []}},
        {"name": "record_count",          "type": "long"},
        {"name": "file_size_in_bytes",    "type": "long"},
        {"name": "null_value_counts",     "type": ["null", {"type": "map", "values": "long"}], "default": null},
        {"name": "lower_bounds",          "type": ["null", {"type": "map", "values": "bytes"}], "default": null},
        {"name": "upper_bounds",          "type": ["null", {"type": "map", "values": "bytes"}], "default": null},
        {"name": "referenced_data_file",  "type": ["null", "string"], "default": null},
        {"name": "content_offset",        "type": ["null", "long"],   "default": null},
        {"name": "content_size_in_bytes", "type": ["null", "long"],   "default": null}
      ]
    }}
  ]
}"#;

/// One row in an Iceberg manifest.
#[derive(Debug, Clone)]
pub struct IcebergManifestEntry {
    /// 0 for an existing file, 1 for an added one, 2 for a deleted one.
    pub status: i32,
    pub snapshot_id: Option<i64>,
    pub sequence_number: Option<i64>,
    pub file_sequence_number: Option<i64>,
    pub data_file: IcebergDataFileMeta,
}

/// The partition of a data file: a record without fields, as for every
/// unpartitioned table.
#[derive(Debug, Clone, Copy)]
pub struct IcebergPartitionStruct {}

/// The data file in a row of a manifest.
#[derive(Debug, Clone)]
pub struct IcebergDataFileMeta {
    /// 0 for data, 1 for position deletes, 2 for equality deletes.
    pub content: i32,
    pub file_path: String,
    pub file_format: String,
    pub partition: IcebergPartitionStruct,
    pub record_count: i64,
    pub file_size_in_bytes: i64,
    pub null_value_counts: Option<HashMap<i32, i64>>,
    pub lower_bounds: Option<HashMap<i32, Vec<u8>>>,
    pub upper_bounds: Option<HashMap<i32, Vec<u8>>>,
    pub referenced_data_file: Option<String>,
    pub content_offset: Option<i64>,
    pub content_size_in_bytes: Option<i64>,
}

/// A row of a manifest list: the summary of one manifest.
#[derive(Debug, Clone)]
pub struct IcebergManifestFileMeta {
    pub manifest_path: String,
    pub manifest_length: i64,
    pub partition_spec_id: i32,
    pub content: i32,
    pub sequence_number: i64,
    pub min_sequence_number: i64,
    pub added_snapshot_id: Option<i64>,
    pub added_files_count: i32,
    pub existing_files_count: i32,
    pub deleted_files_count: i32,
    pub added_rows_count: i64,
    pub existing_rows_count: i64,
    pub deleted_rows_count: i64,
    pub partitions: Option<Vec<IcebergPartitionSummary>>,
}

/// The summary of one partition field over the files of a manifest.
#[derive(Debug, Clone)]
pub struct IcebergPartitionSummary {
    pub contains_null: bool,
    pub contains_nan: Option<bool>,
    pub lower_bound: Option<Vec<u8>>,
    pub upper_bound: Option<Vec<u8>>,
}

/// What an [`IcebergDataFileMeta`] holds.
#[verifier::ext_equal]
pub struct IcebergDataFileMetaView {
    pub content: i32,
    pub file_path: Seq<char>,
    pub file_format: Seq<char>,
    pub record_count: i64,
    pub file_size_in_bytes: i64,
    pub null_value_counts: Option<Map<i32, i64>>,
    pub lower_bounds: Option<Map<i32, Seq<u8>>>,
    pub upper_bounds: Option<Map<i32, Seq<u8>>>,
    pub referenced_data_file: Option<Seq<char>>,
    pub content_offset: Option<i64>,
    pub content_size_in_bytes: Option<i64>,
}

/// What an [`IcebergManifestEntry`] holds.
#[verifier::ext_equal]
pub struct IcebergManifestEntryView {
    pub status: i32,
    pub snapshot_id: Option<i64>,
    pub sequence_number: Option<i64>,
    pub file_sequence_number: Option<i64>,
    pub data_file: IcebergDataFileMetaView,
}

/// What an [`IcebergPartitionSummary`] holds.
#[verifier::ext_equal]
pub struct IcebergPartitionSummaryView {
    pub contains_null: bool,
    pub contains_nan: Option<bool>,
    pub lower_bound: Option<Seq<u8>>,
    pub upper_bound: Option<Seq<u8>>,
}

/// What an [`IcebergManifestFileMeta`] holds.
#[verifier::ext_equal]
pub struct IcebergManifestFileMetaView {
    pub manifest_path: Seq<char>,
    pub manifest_length: i64,
    pub partition_spec_id: i32,
    pub content: i32,
    pub sequence_number: i64,
    pub min_sequence_number: i64,
    pub added_snapshot_id: Option<i64>,
    pub added_files_count: i32,
    pub existing_files_count: i32,
    pub deleted_files_count: i32,
    pub added_rows_count: i64,
    pub existing_rows_count: i64,
    pub deleted_rows_count: i64,
    pub partitions: Option<Seq<IcebergPartitionSummaryView>>,
}

/// The bytes in an optional buffer.
pub open spec fn bytes_of(o: Option<Vec<u8>>) -> Option<Seq<u8>> {
    match o {
        Some(bytes) => Some(bytes@),
        None => None,
    }
}

/// The bytes in each buffer of an optional map.
pub open spec fn bounds_of(o: Option<HashMap<i32, Vec<u8>>>) -> Option<Map<i32, Seq<u8>>> {
    match o {
        Some(bounds) => Some(bounds@.map_values(|bytes: Vec<u8>| bytes@)),
        None => None,
    }
}

impl View for IcebergDataFileMeta {
    type V = IcebergDataFileMetaView;

    open spec fn view(&self) -> IcebergDataFileMetaView {
        IcebergDataFileMetaView {
            content: self.content,
            file_path: self.file_path@,
            file_format: self.file_format@,
            record_count: self.record_count,
            file_size_in_bytes: self.file_size_in_bytes,
            null_value_counts: match self.null_value_counts {
                Some(counts) => Some(counts@),
                None => None,
            },
            lower_bounds: bounds_of(self.lower_bounds),
            upper_bounds: bounds_of(self.upper_bounds),
            referenced_data_file: text_of(self.referenced_data_file),
            content_offset: self.content_offset,
            content_size_in_bytes: self.content_size_in_bytes,
        }
    }
}

impl View for IcebergManifestEntry {
    type V = IcebergManifestEntryView;

    open spec fn view(&self) -> IcebergManifestEntryView {
        IcebergManifestEntryView {
            status: self.status,
            snapshot_id: self.snapshot_id,
            sequence_number: self.sequence_number,
            file_sequence_number: self.file_sequence_number,
            data_file: self.data_file@,
        }
    }
}

impl View for IcebergPartitionSummary {
    type V = IcebergPartitionSummaryView;

    open spec fn view(&self) -> IcebergPartitionSummaryView {
        IcebergPartitionSummaryView {
            contains_null: self.contains_null,
            contains_nan: self.contains_nan,
            lower_bound: bytes_of(self.lower_bound),
            upper_bound: bytes_of(self.upper_bound),
        }
    }
}

impl View for IcebergManifestFileMeta {
    type V = IcebergManifestFileMetaView;

    open spec fn view(&self) -> IcebergManifestFileMetaView {
        IcebergManifestFileMetaView {
            manifest_path: self.manifest_path@,
            manifest_length: self.manifest_length,
            partition_spec_id: self.partition_spec_id,
            content: self.content,
            sequence_number: self.sequence_number,
            min_sequence_number: self.min_sequence_number,
            added_snapshot_id: self.added_snapshot_id,
            added_files_count: self.added_files_count,
            existing_files_count: self.existing_files_count,
            deleted_files_count: self.deleted_files_count,
            added_rows_count: self.added_rows_count,
            existing_rows_count: self.existing_rows_count,
            deleted_rows_count: self.deleted_rows_count,
            partitions: match self.partitions {
                Some(partitions) => Some(
                    Seq::new(partitions@.len(), |i: int| partitions@[i]@),
                ),
                None => None,
            },
        }
    }
}

impl Default for IcebergPartitionStruct {
    fn default() -> (r: Self)
        ensures
            r == (IcebergPartitionStruct {  }),
    {
        IcebergPartitionStruct {  }
    }
}

// ---------------------------------------------------------------------------
// The Avro form
// ---------------------------------------------------------------------------

/// The absent branch of an optional value.
pub open spec fn absent() -> Avro {
    Avro::Union(0, Box::new(Avro::Null))
}

/// The present branch of an optional value.
pub open spec fn present(value: Avro) -> Avro {
    Avro::Union(1, Box::new(value))
}

/// The Avro form of an optional number.
pub open spec fn optional_long(o: Option<i64>) -> Avro {
    match o {
        Some(i) => present(Avro::Long(i)),
        None => absent(),
    }
}

/// The Avro form of an optional truth value.
pub open spec fn optional_boolean(o: Option<bool>) -> Avro {
    match o {
        Some(b) => present(Avro::Boolean(b)),
        None => absent(),
    }
}

/// The Avro form of an optional text.
pub open spec fn optional_text(o: Option<Seq<char>>) -> Avro {
    match o {
        Some(text) => present(Avro::Text(text)),
        None => absent(),
    }
}

/// The Avro form of an optional buffer.
pub open spec fn optional_bytes(o: Option<Seq<u8>>) -> Avro {
    match o {
        Some(bytes) => present(Avro::Bytes(bytes)),
        None => absent(),
    }
}

/// The Avro form of an optional map that has no entries where it is present.
pub open spec fn optional_empty_map(is_present: bool) -> Avro {
    if is_present {
        present(Avro::Table(Map::empty()))
    } else {
        absent()
    }
}

/// The Avro form of the partition summaries of a manifest.
pub open spec fn partition_summary_record(summary: IcebergPartitionSummaryView) -> Avro {
    Avro::Record(
        seq![
            ("contains_null"@, Avro::Boolean(summary.contains_null)),
            ("contains_nan"@, optional_boolean(summary.contains_nan)),
            ("lower_bound"@, optional_bytes(summary.lower_bound)),
            ("upper_bound"@, optional_bytes(summary.upper_bound)),
        ],
    )
}

/// The Avro form of a row of a manifest list.
pub open spec fn manifest_file_record(meta: IcebergManifestFileMetaView) -> Avro {
    Avro::Record(
        seq![
            ("manifest_path"@, Avro::Text(meta.manifest_path)),
            ("manifest_length"@, Avro::Long(meta.manifest_length)),
            ("partition_spec_id"@, Avro::Int(meta.partition_spec_id)),
            ("content"@, Avro::Int(meta.content)),
            ("sequence_number"@, Avro::Long(meta.sequence_number)),
            ("min_sequence_number"@, Avro::Long(meta.min_sequence_number)),
            ("added_snapshot_id"@, optional_long(meta.added_snapshot_id)),
            ("added_files_count"@, Avro::Int(meta.added_files_count)),
            ("existing_files_count"@, Avro::Int(meta.existing_files_count)),
            ("deleted_files_count"@, Avro::Int(meta.deleted_files_count)),
            ("added_rows_count"@, Avro::Long(meta.added_rows_count)),
            ("existing_rows_count"@, Avro::Long(meta.existing_rows_count)),
            ("deleted_rows_count"@, Avro::Long(meta.deleted_rows_count)),
            (
                "partitions"@,
                match meta.partitions {
                    Some(partitions) => present(
                        Avro::Array(
                            Seq::new(
                                partitions.len(),
                                |i: int| partition_summary_record(partitions[i]),
                            ),
                        ),
                    ),
                    None => absent(),
                },
            ),
        ],
    )
}

/// Whether a data file can be written: the keys of Avro maps are texts, so a
/// statistic by column number can only be written where it is absent or empty.
pub open spec fn is_writable(file: IcebergDataFileMetaView) -> bool {
    &&& file.null_value_counts matches Some(counts) ==> counts == Map::<i32, i64>::empty()
    &&& file.lower_bounds matches Some(bounds) ==> bounds == Map::<i32, Seq<u8>>::empty()
    &&& file.upper_bounds matches Some(bounds) ==> bounds == Map::<i32, Seq<u8>>::empty()
}

/// The Avro form of a data file that can be written.
pub open spec fn data_file_record(file: IcebergDataFileMetaView) -> Avro {
    Avro::Record(
        seq![
            ("content"@, Avro::Int(file.content)),
            ("file_path"@, Avro::Text(file.file_path)),
            ("file_format"@, Avro::Text(file.file_format)),
            ("partition"@, Avro::Record(Seq::empty())),
            ("record_count"@, Avro::Long(file.record_count)),
            ("file_size_in_bytes"@, Avro::Long(file.file_size_in_bytes)),
            ("null_value_counts"@, optional_empty_map(file.null_value_counts is Some)),
            ("lower_bounds"@, optional_empty_map(file.lower_bounds is Some)),
            ("upper_bounds"@, optional_empty_map(file.upper_bounds is Some)),
            ("referenced_data_file"@, optional_text(file.referenced_data_file)),
            ("content_offset"@, optional_long(file.content_offset)),
            ("content_size_in_bytes"@, optional_long(file.content_size_in_bytes)),
        ],
    )
}

/// The Avro form of a row of a manifest.
pub open spec fn manifest_entry_record(entry: IcebergManifestEntryView) -> Avro {
    Avro::Record(
        seq![
            ("status"@, Avro::Int(entry.status)),
            ("snapshot_id"@, optional_long(entry.snapshot_id)),
            ("sequence_number"@, optional_long(entry.sequence_number)),
            ("file_sequence_number"@, optional_long(entry.file_sequence_number)),
            ("data_file"@, data_file_record(entry.data_file)),
        ],
    )
}

/// Whether a record has exactly the form of its schema.
pub open spec fn record_fits(schema: Seq<char>, record: Avro) -> bool {
    ||| schema == ICEBERG_MANIFEST_LIST_SCHEMA@ && exists|meta: IcebergManifestFileMetaView|
        record == #[trigger] manifest_file_record(meta)
    ||| schema == ICEBERG_MANIFEST_ENTRY_SCHEMA@ && exists|entry: IcebergManifestEntryView|
        record == #[trigger] manifest_entry_record(entry)
}

/// What each row of a manifest holds.
pub open spec fn entry_views(entries: Seq<IcebergManifestEntry>) -> Seq<IcebergManifestEntryView> {
    Seq::new(entries.len(), |i: int| entries[i]@)
}

/// The Avro form of each row of a manifest.
pub open spec fn entry_records(entries: Seq<IcebergManifestEntryView>) -> Seq<Avro> {
    Seq::new(entries.len(), |i: int| manifest_entry_record(entries[i]))
}

/// What each row of a manifest list holds.
pub open spec fn manifest_file_views(metas: Seq<IcebergManifestFileMeta>) -> Seq<
    IcebergManifestFileMetaView,
> {
    Seq::new(metas.len(), |i: int| metas[i]@)
}

/// The Avro form of each row of a manifest list.
pub open spec fn manifest_file_records(metas: Seq<IcebergManifestFileMetaView>) -> Seq<Avro> {
    Seq::new(metas.len(), |i: int| manifest_file_record(metas[i]))
}

/// Whether a file is a container of the given records under the given schema.
pub open spec fn is_container_of(file: Seq<u8>, schema: Seq<char>, records: Seq<Avro>) -> bool {
    &&& avro_contents(file) == records
    &&& file.len() >= 16
    &&& file == avro_container(schema, records, block_marker(file))
}

/// Builds the Avro form of an optional number.
fn long_value(o: Option<i64>) -> (r: apache_avro::types::Value)
    ensures
        avro_tree(r) == optional_long(o),
{
    match o {
        Some(i) => avro_union(1, avro_long(i)),
        None => avro_absent(),
    }
}

/// Builds the Avro form of an optional truth value.
fn boolean_value(o: Option<bool>) -> (r: apache_avro::types::Value)
    ensures
        avro_tree(r) == optional_boolean(o),
{
    match o {
        Some(b) => avro_union(1, avro_boolean(b)),
        None => avro_absent(),
    }
}

/// Builds the Avro form of an optional text.
fn text_value(o: &Option<String>) -> (r: apache_avro::types::Value)
    ensures
        avro_tree(r) == optional_text(text_of(*o)),
{
    match copy_text(o) {
        Some(text) => avro_union(1, avro_string(text)),
        None => avro_absent(),
    }
}

/// Builds the Avro form of an optional buffer.
fn bytes_value(o: &Option<Vec<u8>>) -> (r: apache_avro::types::Value)
    ensures
        avro_tree(r) == optional_bytes(bytes_of(*o)),
{
    match o {
        Some(bytes) => avro_union(1, avro_bytes(bytes.clone())),
        None => avro_absent(),
    }
}

/// Builds the Avro form of an optional map without entries.
fn empty_map_value(is_present: bool) -> (r: apache_avro::types::Value)
    ensures
        avro_tree(r) == optional_empty_map(is_present),
{
    if is_present {
        avro_union(1, avro_empty_map())
    } else {
        avro_absent()
    }
}

/// Builds the Avro form of a partition summary.
fn partition_summary_value(summary: &IcebergPartitionSummary) -> (r: apache_avro::types::Value)
    ensures
        avro_tree(r) == partition_summary_record(summary@),
{
    let mut fields: Vec<(String, apache_avro::types::Value)> = Vec::new();
    assert(avro_fields(fields@) =~= Seq::empty());
    add_field(&mut fields, "contains_null", avro_boolean(summary.contains_null));
    add_field(&mut fields, "contains_nan", boolean_value(summary.contains_nan));
    add_field(&mut fields, "lower_bound", bytes_value(&summary.lower_bound));
    add_field(&mut fields, "upper_bound", bytes_value(&summary.upper_bound));
    assert(avro_fields(fields@) =~= partition_summary_record(summary@)->Record_0);
    avro_record(fields)
}

/// Builds the Avro form of the partition summaries of a manifest.
fn partitions_value(partitions: &Vec<IcebergPartitionSummary>) -> (r: apache_avro::types::Value)
    ensures
        avro_tree(r) == present(
            Avro::Array(
                Seq::new(partitions@.len(), |k: int| partition_summary_record(partitions@[k]@)),
            ),
        ),
{
    let mut values: Vec<apache_avro::types::Value> = Vec::new();
    let mut i: usize = 0;
    while i < partitions.len()
        invariant
            i <= partitions.len(),
            values@.len() == i,
            forall|k: int|
                0 <= k < i ==> avro_tree(#[trigger] values@[k]) == partition_summary_record(
                    partitions@[k]@,
                ),
        decreases partitions.len() - i,
    {
        values.push(partition_summary_value(&partitions[i]));
        i = i + 1;
    }
    assert(avro_trees(values@) =~= Seq::new(
        partitions@.len(),
        |k: int| partition_summary_record(partitions@[k]@),
    ));
    avro_union(1, avro_array(values))
}

/// Builds the Avro form of a row of a manifest list.
fn manifest_file_value(meta: &IcebergManifestFileMeta) -> (r: apache_avro::types::Value)
    ensures
        avro_tree(r) == manifest_file_record(meta@),
{
    let partitions = match &meta.partitions {
        Some(partitions) => {
            let value = partitions_value(partitions);
            assert(avro_tree(value)->Union_1->Array_0 =~= Seq::new(
                meta@.partitions->Some_0.len(),
                |k: int| partition_summary_record(meta@.partitions->Some_0[k]),
            ));
            value
        },
        None => avro_absent(),
    };
    let mut fields: Vec<(String, apache_avro::types::Value)> = Vec::new();
    assert(avro_fields(fields@) =~= Seq::empty());
    add_field(&mut fields, "manifest_path", avro_string(meta.manifest_path.clone()));
    add_field(&mut fields, "manifest_length", avro_long(meta.manifest_length));
    add_field(&mut fields, "partition_spec_id", avro_int(meta.partition_spec_id));
    add_field(&mut fields, "content", avro_int(meta.content));
    add_field(&mut fields, "sequence_number", avro_long(meta.sequence_number));
    add_field(&mut fields, "min_sequence_number", avro_long(meta.min_sequence_number));
    add_field(&mut fields, "added_snapshot_id", long_value(meta.added_snapshot_id));
    add_field(&mut fields, "added_files_count", avro_int(meta.added_files_count));
    add_field(&mut fields, "existing_files_count", avro_int(meta.existing_files_count));
    add_field(&mut fields, "deleted_files_count", avro_int(meta.deleted_files_count));
    add_field(&mut fields, "added_rows_count", avro_long(meta.added_rows_count));
    add_field(&mut fields, "existing_rows_count", avro_long(meta.existing_rows_count));
    add_field(&mut fields, "deleted_rows_count", avro_long(meta.deleted_rows_count));
    add_field(&mut fields, "partitions", partitions);
    assert(avro_fields(fields@) =~= manifest_file_record(meta@)->Record_0);
    avro_record(fields)
}

/// Builds the Avro form of a data file.
fn data_file_value(file: &IcebergDataFileMeta) -> (r: apache_avro::types::Value)
    ensures
        avro_tree(r) == data_file_record(file@),
{
    let partition: Vec<(String, apache_avro::types::Value)> = Vec::new();
    assert(avro_fields(partition@) =~= Seq::empty());
    let mut fields: Vec<(String, apache_avro::types::Value)> = Vec::new();
    assert(avro_fields(fields@) =~= Seq::empty());
    add_field(&mut fields, "content", avro_int(file.content));
    add_field(&mut fields, "file_path", avro_string(file.file_path.clone()));
    add_field(&mut fields, "file_format", avro_string(file.file_format.clone()));
    add_field(&mut fields, "partition", avro_record(partition));
    add_field(&mut fields, "record_count", avro_long(file.record_count));
    add_field(&mut fields, "file_size_in_bytes", avro_long(file.file_size_in_bytes));
    add_field(
        &mut fields,
        "null_value_counts",
        empty_map_value(file.null_value_counts.is_some()),
    );
    add_field(&mut fields, "lower_bounds", empty_map_value(file.lower_bounds.is_some()));
    add_field(&mut fields, "upper_bounds", empty_map_value(file.upper_bounds.is_some()));
    add_field(&mut fields, "referenced_data_file", text_value(&file.referenced_data_file));
    add_field(&mut fields, "content_offset", long_value(file.content_offset));
    add_field(&mut fields, "content_size_in_bytes", long_value(file.content_size_in_bytes));
    assert(avro_fields(fields@) =~= data_file_record(file@)->Record_0);
    avro_record(fields)
}

/// Builds the Avro form of a row of a manifest.
fn manifest_entry_value(entry: &IcebergManifestEntry) -> (r: apache_avro::types::Value)
    ensures
        avro_tree(r) == manifest_entry_record(entry@),
{
    let mut fields: Vec<(String, apache_avro::types::Value)> = Vec::new();
    assert(avro_fields(fields@) =~= Seq::empty());
    add_field(&mut fields, "status", avro_int(entry.status));
    add_field(&mut fields, "snapshot_id", long_value(entry.snapshot_id));
    add_field(&mut fields, "sequence_number", long_value(entry.sequence_number));
    add_field(&mut fields, "file_sequence_number", long_value(entry.file_sequence_number));
    add_field(&mut fields, "data_file", data_file_value(&entry.data_file));
    assert(avro_fields(fields@) =~= manifest_entry_record(entry@)->Record_0);
    avro_record(fields)
}

/// Whether each row of a manifest can be written.
pub open spec fn all_writable(entries: Seq<IcebergManifestEntryView>) -> bool {
    forall|i: int| 0 <= i < entries.len() ==> is_writable((#[trigger] entries[i]).data_file)
}

/// Tests whether an optional statistic is absent or empty.
fn has_no_counts(o: &Option<HashMap<i32, i64>>) -> (r: bool)
    ensures
        r == match *o {
            Some(counts) => counts@ == Map::<i32, i64>::empty(),
            None => true,
        },
{
    broadcast use vstd::std_specs::hash::group_hash_axioms;

    match o {
        Some(counts) => {
            let r = counts.is_empty();
            assert(r ==> counts@ =~= Map::<i32, i64>::empty());
            r
        },
        None => true,
    }
}

/// Tests whether an optional map of bounds is absent or empty.
fn has_no_bounds(o: &Option<HashMap<i32, Vec<u8>>>) -> (r: bool)
    ensures
        r == match bounds_of(*o) {
            Some(bounds) => bounds == Map::<i32, Seq<u8>>::empty(),
            None => true,
        },
{
    broadcast use vstd::std_specs::hash::group_hash_axioms;

    match o {
        Some(bounds) => {
            let r = bounds.is_empty();
            let ghost image = bounds@.map_values(|bytes: Vec<u8>| bytes@);
            assert(r ==> image =~= Map::<i32, Seq<u8>>::empty());
            assert(image.dom() =~= bounds@.dom());
            assert(image == Map::<i32, Seq<u8>>::empty() ==> bounds@ =~= Map::<
                i32,
                Vec<u8>,
            >::empty());
            r
        },
        None => true,
    }
}

impl IcebergDataFileMeta {
    /// Tests whether the data file can be written to a manifest.
    pub fn can_be_written(&self) -> (r: bool)
        ensures
            r == is_writable(self@),
    {
        has_no_counts(&self.null_value_counts) && has_no_bounds(&self.lower_bounds)
            && has_no_bounds(&self.upper_bounds)
    }
}

/// Writes a manifest: an Avro container with one record for each entry.
///
/// Fails where an entry carries a statistic by column number.
pub fn manifest_bytes(entries: &Vec<IcebergManifestEntry>) -> (r: Result<Vec<u8>, MetadataError>)
    ensures
        r is Ok <==> all_writable(entry_views(entries@)),
        r matches Ok(file) ==> is_container_of(
            file@,
            ICEBERG_MANIFEST_ENTRY_SCHEMA@,
            entry_records(entry_views(entries@)),
        ),
        r matches Err(MetadataError::DataInvalid { message }) ==> message@
            == "Avro maps have text keys: statistics by column number cannot be written"@,
{
    let ghost views = entry_views(entries@);
    let mut records: Vec<apache_avro::types::Value> = Vec::new();
    let mut i: usize = 0;
    while i < entries.len()
        invariant
            i <= entries.len(),
            records@.len() == i,
            views == entry_views(entries@),
            forall|k: int| 0 <= k < i ==> is_writable((#[trigger] views[k]).data_file),
            forall|k: int|
                0 <= k < i ==> avro_tree(#[trigger] records@[k]) == manifest_entry_record(
                    entries@[k]@,
                ),
        decreases entries.len() - i,
    {
        assert(views[i as int] == entries@[i as int]@);
        if !entries[i].data_file.can_be_written() {
            return Err(
                MetadataError::DataInvalid {
                    message:
                        "Avro maps have text keys: statistics by column number cannot be written".to_owned(),
                },
            );
        }
        records.push(manifest_entry_value(&entries[i]));
        i = i + 1;
    }
    assert(avro_trees(records@) =~= entry_records(views));
    assert forall|k: int| 0 <= k < records@.len() implies record_fits(
        ICEBERG_MANIFEST_ENTRY_SCHEMA@,
        #[trigger] avro_trees(records@)[k],
    ) by {
        assert(avro_trees(records@)[k] == manifest_entry_record(entries@[k]@));
    }
    match write_container(ICEBERG_MANIFEST_ENTRY_SCHEMA, &records) {
        Ok(file) => Ok(file),
        Err(_) => Err(MetadataError::DataInvalid { message: "Avro manifest".to_owned() }),
    }
}

/// Writes a manifest list: an Avro container with one record for each
/// manifest.
pub fn manifest_list_bytes(metas: &Vec<IcebergManifestFileMeta>) -> (r: Result<
    Vec<u8>,
    MetadataError,
>)
    ensures
        r is Ok,
        r matches Ok(file) ==> is_container_of(
            file@,
            ICEBERG_MANIFEST_LIST_SCHEMA@,
            manifest_file_records(manifest_file_views(metas@)),
        ),
{
    let ghost views = manifest_file_views(metas@);
    let mut records: Vec<apache_avro::types::Value> = Vec::new();
    let mut i: usize = 0;
    while i < metas.len()
        invariant
            i <= metas.len(),
            records@.len() == i,
            forall|k: int|
                0 <= k < i ==> avro_tree(#[trigger] records@[k]) == manifest_file_record(
                    metas@[k]@,
                ),
        decreases metas.len() - i,
    {
        records.push(manifest_file_value(&metas[i]));
        i = i + 1;
    }
    assert(avro_trees(records@) =~= manifest_file_records(views));
    assert forall|k: int| 0 <= k < records@.len() implies record_fits(
        ICEBERG_MANIFEST_LIST_SCHEMA@,
        #[trigger] avro_trees(records@)[k],
    ) by {
        assert(avro_trees(records@)[k] == manifest_file_record(metas@[k]@));
    }
    match write_container(ICEBERG_MANIFEST_LIST_SCHEMA, &records) {
        Ok(file) => Ok(file),
        Err(_) => Err(MetadataError::DataInvalid { message: "Avro manifest list".to_owned() }),
    }
}

// ---------------------------------------------------------------------------
// Laws
// ---------------------------------------------------------------------------

/// The Avro form of a partition summary determines it.
pub proof fn partition_summary_record_is_lossless(
    a: IcebergPartitionSummaryView,
    b: IcebergPartitionSummaryView,
)
    requires
        partition_summary_record(a) == partition_summary_record(b),
    ensures
        a == b,
{
    let (x, y) = (partition_summary_record(a)->Record_0, partition_summary_record(b)->Record_0);
    assert(x[0] == y[0] && x[1] == y[1] && x[2] == y[2] && x[3] == y[3]);
    assert(a =~= b);
}

/// The Avro form of a row of a manifest list determines the row.
pub proof fn manifest_file_record_is_lossless(
    a: IcebergManifestFileMetaView,
    b: IcebergManifestFileMetaView,
)
    requires
        manifest_file_record(a) == manifest_file_record(b),
    ensures
        a == b,
{
    let (x, y) = (manifest_file_record(a)->Record_0, manifest_file_record(b)->Record_0);
    assert(x[0] == y[0] && x[1] == y[1] && x[2] == y[2] && x[3] == y[3] && x[4] == y[4]);
    assert(x[5] == y[5] && x[6] == y[6] && x[7] == y[7] && x[8] == y[8] && x[9] == y[9]);
    assert(x[10] == y[10] && x[11] == y[11] && x[12] == y[12] && x[13] == y[13]);
    if a.partitions is Some && b.partitions is Some {
        let (p, q) = (a.partitions->Some_0, b.partitions->Some_0);
        let (s, t) = (x[13].1->Union_1->Array_0, y[13].1->Union_1->Array_0);
        assert(s.len() == p.len() && t.len() == q.len());
        assert forall|i: int| 0 <= i < p.len() implies p[i] == q[i] by {
            assert(s[i] == t[i]);
            partition_summary_record_is_lossless(p[i], q[i]);
        }
        assert(p =~= q);
    }
}

/// The Avro form of a data file that can be written determines the data file.
pub proof fn data_file_record_is_lossless(a: IcebergDataFileMetaView, b: IcebergDataFileMetaView)
    requires
        is_writable(a),
        is_writable(b),
        data_file_record(a) == data_file_record(b),
    ensures
        a == b,
{
    let (x, y) = (data_file_record(a)->Record_0, data_file_record(b)->Record_0);
    assert(x[0] == y[0] && x[1] == y[1] && x[2] == y[2] && x[4] == y[4] && x[5] == y[5]);
    assert(x[6] == y[6] && x[7] == y[7] && x[8] == y[8]);
    assert(x[9] == y[9] && x[10] == y[10] && x[11] == y[11]);
    assert(a =~= b);
}

/// The Avro form of a row of a manifest that can be written determines the
/// row.
pub proof fn manifest_entry_record_is_lossless(
    a: IcebergManifestEntryView,
    b: IcebergManifestEntryView,
)
    requires
        is_writable(a.data_file),
        is_writable(b.data_file),
        manifest_entry_record(a) == manifest_entry_record(b),
    ensures
        a == b,
{
    let (x, y) = (manifest_entry_record(a)->Record_0, manifest_entry_record(b)->Record_0);
    assert(x[0] == y[0] && x[1] == y[1] && x[2] == y[2] && x[3] == y[3] && x[4] == y[4]);
    data_file_record_is_lossless(a.data_file, b.data_file);
}

/// Reading a manifest gives back its rows: two lists of rows that are written
/// to the same file are the same list.
pub proof fn manifests_are_lossless(
    file: Seq<u8>,
    a: Seq<IcebergManifestEntryView>,
    b: Seq<IcebergManifestEntryView>,
)
    requires
        all_writable(a),
        all_writable(b),
        is_container_of(file, ICEBERG_MANIFEST_ENTRY_SCHEMA@, entry_records(a)),
        is_container_of(file, ICEBERG_MANIFEST_ENTRY_SCHEMA@, entry_records(b)),
    ensures
        a == b,
{
    let (x, y) = (entry_records(a), entry_records(b));
    assert(x.len() == a.len() && y.len() == b.len());
    assert forall|i: int| 0 <= i < a.len() implies a[i] == b[i] by {
        assert(x[i] == y[i]);
        manifest_entry_record_is_lossless(a[i], b[i]);
    }
    assert(a =~= b);
}

/// Reading a manifest list gives back its rows: two lists of rows that are
/// written to the same file are the same list.
pub proof fn manifest_lists_are_lossless(
    file: Seq<u8>,
    a: Seq<IcebergManifestFileMetaView>,
    b: Seq<IcebergManifestFileMetaView>,
)
    requires
        is_container_of(file, ICEBERG_MANIFEST_LIST_SCHEMA@, manifest_file_records(a)),
        is_container_of(file, ICEBERG_MANIFEST_LIST_SCHEMA@, manifest_file_records(b)),
    ensures
        a == b,
{
    let (x, y) = (manifest_file_records(a), manifest_file_records(b));
    assert(x.len() == a.len() && y.len() == b.len());
    assert forall|i: int| 0 <= i < a.len() implies a[i] == b[i] by {
        assert(x[i] == y[i]);
        manifest_file_record_is_lossless(a[i], b[i]);
    }
    assert(a =~= b);
}

} // verus!
