//! What the Avro form of the rows of manifests and manifest lists says.
use vstd::prelude::*;

use crate::avro::{avro_contents, Avro};
use crate::manifest::{
    absent, all_writable, data_file_record, entry_records, is_container_of, is_writable,
    manifest_entry_record, manifest_file_record, manifest_file_records, optional_boolean,
    optional_bytes, optional_empty_map, optional_long, optional_text, partition_summary_record,
    present, IcebergDataFileMetaView, IcebergManifestEntryView, IcebergManifestFileMetaView,
    IcebergPartitionSummaryView,
};

verus! {

/// Whether a record has a field with the given name and value.
pub open spec fn has_field(record: Avro, name: Seq<char>, value: Avro) -> bool {
    record is Record && record->Record_0.contains((name, value))
}

/// An optional value is a union: its branch 0 is null, its branch 1 the value.
pub proof fn optional_values_are_unions(
    value: Avro,
    number: i64,
    flag: bool,
    text: Seq<char>,
    bytes: Seq<u8>,
)
    ensures
        absent() == Avro::Union(0, Box::new(Avro::Null)),
        present(value) == Avro::Union(1, Box::new(value)),
        optional_long(None) == Avro::Union(0, Box::new(Avro::Null)),
        optional_long(Some(number)) == Avro::Union(1, Box::new(Avro::Long(number))),
        optional_boolean(None) == Avro::Union(0, Box::new(Avro::Null)),
        optional_boolean(Some(flag)) == Avro::Union(1, Box::new(Avro::Boolean(flag))),
        optional_text(None) == Avro::Union(0, Box::new(Avro::Null)),
        optional_text(Some(text)) == Avro::Union(1, Box::new(Avro::Text(text))),
        optional_bytes(None) == Avro::Union(0, Box::new(Avro::Null)),
        optional_bytes(Some(bytes)) == Avro::Union(1, Box::new(Avro::Bytes(bytes))),
        optional_empty_map(false) == Avro::Union(0, Box::new(Avro::Null)),
        optional_empty_map(true) == Avro::Union(1, Box::new(Avro::Table(Map::empty()))),
{
}

/// The row of a manifest list says every number and text of its summary under the
/// name that the table format gives it.
pub proof fn a_summary_says_what_it_holds(meta: IcebergManifestFileMetaView)
    ensures
        ({
            let record = manifest_file_record(meta);
            &&& has_field(record, "manifest_path"@, Avro::Text(meta.manifest_path))
            &&& has_field(record, "manifest_length"@, Avro::Long(meta.manifest_length))
            &&& has_field(record, "partition_spec_id"@, Avro::Int(meta.partition_spec_id))
            &&& has_field(record, "content"@, Avro::Int(meta.content))
            &&& has_field(record, "sequence_number"@, Avro::Long(meta.sequence_number))
            &&& has_field(record, "min_sequence_number"@, Avro::Long(meta.min_sequence_number))
            &&& has_field(record, "added_snapshot_id"@, optional_long(meta.added_snapshot_id))
            &&& has_field(record, "added_files_count"@, Avro::Int(meta.added_files_count))
            &&& has_field(record, "existing_files_count"@, Avro::Int(meta.existing_files_count))
            &&& has_field(record, "deleted_files_count"@, Avro::Int(meta.deleted_files_count))
            &&& has_field(record, "added_rows_count"@, Avro::Long(meta.added_rows_count))
            &&& has_field(record, "existing_rows_count"@, Avro::Long(meta.existing_rows_count))
            &&& has_field(record, "deleted_rows_count"@, Avro::Long(meta.deleted_rows_count))
            &&& record->Record_0.len() == 14
        }),
{
    let fields = manifest_file_record(meta)->Record_0;
    assert(fields[0] == ("manifest_path"@, Avro::Text(meta.manifest_path)));
    assert(fields[1] == ("manifest_length"@, Avro::Long(meta.manifest_length)));
    assert(fields[2] == ("partition_spec_id"@, Avro::Int(meta.partition_spec_id)));
    assert(fields[3] == ("content"@, Avro::Int(meta.content)));
    assert(fields[4] == ("sequence_number"@, Avro::Long(meta.sequence_number)));
    assert(fields[5] == ("min_sequence_number"@, Avro::Long(meta.min_sequence_number)));
    assert(fields[6] == ("added_snapshot_id"@, optional_long(meta.added_snapshot_id)));
    assert(fields[7] == ("added_files_count"@, Avro::Int(meta.added_files_count)));
    assert(fields[8] == ("existing_files_count"@, Avro::Int(meta.existing_files_count)));
    assert(fields[9] == ("deleted_files_count"@, Avro::Int(meta.deleted_files_count)));
    assert(fields[10] == ("added_rows_count"@, Avro::Long(meta.added_rows_count)));
    assert(fields[11] == ("existing_rows_count"@, Avro::Long(meta.existing_rows_count)));
    assert(fields[12] == ("deleted_rows_count"@, Avro::Long(meta.deleted_rows_count)));
}

/// The row of a manifest list lists the partition summaries, in order, where
/// there are any.
pub proof fn a_summary_lists_its_partitions(meta: IcebergManifestFileMetaView)
    ensures
        meta.partitions is None ==> has_field(
            manifest_file_record(meta),
            "partitions"@,
            Avro::Union(0, Box::new(Avro::Null)),
        ),
        meta.partitions is Some ==> exists|items: Seq<Avro>|
            {
                &&& #[trigger] has_field(
                    manifest_file_record(meta),
                    "partitions"@,
                    Avro::Union(1, Box::new(Avro::Array(items))),
                )
                &&& items.len() == meta.partitions->0.len()
                &&& forall|i: int|
                    0 <= i < items.len() ==> #[trigger] items[i] == partition_summary_record(
                        meta.partitions->0[i],
                    )
            },
{
    let record = manifest_file_record(meta);
    let fields = record->Record_0;
    assert(fields[13].0 == "partitions"@);
    if meta.partitions is Some {
        let items = fields[13].1->Union_1->Array_0;
        assert(fields[13] == ("partitions"@, Avro::Union(1, Box::new(Avro::Array(items)))));
        assert(has_field(
            record,
            "partitions"@,
            Avro::Union(1, Box::new(Avro::Array(items))),
        ));
    } else {
        assert(fields[13] == ("partitions"@, Avro::Union(0, Box::new(Avro::Null))));
    }
}

/// The record of a partition summary says what the summary holds.
pub proof fn a_partition_summary_says_what_it_holds(summary: IcebergPartitionSummaryView)
    ensures
        ({
            let record = partition_summary_record(summary);
            &&& has_field(record, "contains_null"@, Avro::Boolean(summary.contains_null))
            &&& has_field(record, "contains_nan"@, optional_boolean(summary.contains_nan))
            &&& has_field(record, "lower_bound"@, optional_bytes(summary.lower_bound))
            &&& has_field(record, "upper_bound"@, optional_bytes(summary.upper_bound))
            &&& record->Record_0.len() == 4
        }),
{
    let fields = partition_summary_record(summary)->Record_0;
    assert(fields[0] == ("contains_null"@, Avro::Boolean(summary.contains_null)));
    assert(fields[1] == ("contains_nan"@, optional_boolean(summary.contains_nan)));
    assert(fields[2] == ("lower_bound"@, optional_bytes(summary.lower_bound)));
    assert(fields[3] == ("upper_bound"@, optional_bytes(summary.upper_bound)));
}

/// The record of a data file says its path, its format and its numbers. Its
/// partition is a record without fields.
pub proof fn a_data_file_says_what_it_holds(file: IcebergDataFileMetaView)
    ensures
        ({
            let record = data_file_record(file);
            &&& has_field(record, "content"@, Avro::Int(file.content))
            &&& has_field(record, "file_path"@, Avro::Text(file.file_path))
            &&& has_field(record, "file_format"@, Avro::Text(file.file_format))
            &&& has_field(record, "partition"@, Avro::Record(Seq::empty()))
            &&& has_field(record, "record_count"@, Avro::Long(file.record_count))
            &&& has_field(record, "file_size_in_bytes"@, Avro::Long(file.file_size_in_bytes))
            &&& has_field(
                record,
                "null_value_counts"@,
                optional_empty_map(file.null_value_counts is Some),
            )
            &&& has_field(record, "lower_bounds"@, optional_empty_map(file.lower_bounds is Some))
            &&& has_field(record, "upper_bounds"@, optional_empty_map(file.upper_bounds is Some))
            &&& has_field(record, "referenced_data_file"@, optional_text(file.referenced_data_file))
            &&& has_field(record, "content_offset"@, optional_long(file.content_offset))
            &&& has_field(
                record,
                "content_size_in_bytes"@,
                optional_long(file.content_size_in_bytes),
            )
            &&& record->Record_0.len() == 12
        }),
{
    let fields = data_file_record(file)->Record_0;
    assert(fields[0] == ("content"@, Avro::Int(file.content)));
    assert(fields[1] == ("file_path"@, Avro::Text(file.file_path)));
    assert(fields[2] == ("file_format"@, Avro::Text(file.file_format)));
    assert(fields[3] == ("partition"@, Avro::Record(Seq::empty())));
    assert(fields[4] == ("record_count"@, Avro::Long(file.record_count)));
    assert(fields[5] == ("file_size_in_bytes"@, Avro::Long(file.file_size_in_bytes)));
    assert(fields[6] == ("null_value_counts"@, optional_empty_map(file.null_value_counts is Some)));
    assert(fields[7] == ("lower_bounds"@, optional_empty_map(file.lower_bounds is Some)));
    assert(fields[8] == ("upper_bounds"@, optional_empty_map(file.upper_bounds is Some)));
    assert(fields[9] == ("referenced_data_file"@, optional_text(file.referenced_data_file)));
    assert(fields[10] == ("content_offset"@, optional_long(file.content_offset)));
    assert(fields[11] == ("content_size_in_bytes"@, optional_long(file.content_size_in_bytes)));
}

/// The row of a manifest says its status, its numbers and its data file.
pub proof fn an_entry_says_what_it_holds(entry: IcebergManifestEntryView)
    ensures
        ({
            let record = manifest_entry_record(entry);
            &&& has_field(record, "status"@, Avro::Int(entry.status))
            &&& has_field(record, "snapshot_id"@, optional_long(entry.snapshot_id))
            &&& has_field(record, "sequence_number"@, optional_long(entry.sequence_number))
            &&& has_field(
                record,
                "file_sequence_number"@,
                optional_long(entry.file_sequence_number),
            )
            &&& has_field(record, "data_file"@, data_file_record(entry.data_file))
            &&& record->Record_0.len() == 5
        }),
{
    let fields = manifest_entry_record(entry)->Record_0;
    assert(fields[0] == ("status"@, Avro::Int(entry.status)));
    assert(fields[1] == ("snapshot_id"@, optional_long(entry.snapshot_id)));
    assert(fields[2] == ("sequence_number"@, optional_long(entry.sequence_number)));
    assert(fields[3] == ("file_sequence_number"@, optional_long(entry.file_sequence_number)));
    assert(fields[4] == ("data_file"@, data_file_record(entry.data_file)));
}

/// A manifest has one record per row, and a manifest list one per summary, in
/// their order.
pub proof fn records_stand_for_rows_one_by_one(
    entries: Seq<IcebergManifestEntryView>,
    metas: Seq<IcebergManifestFileMetaView>,
)
    ensures
        entry_records(entries).len() == entries.len(),
        forall|i: int|
            0 <= i < entries.len() ==> #[trigger] entry_records(entries)[i]
                == manifest_entry_record(entries[i]),
        manifest_file_records(metas).len() == metas.len(),
        forall|i: int|
            0 <= i < metas.len() ==> #[trigger] manifest_file_records(metas)[i]
                == manifest_file_record(metas[i]),
{
}

/// A file without statistics can always be written, and one with statistics
/// just where none of them has an entry.
pub proof fn only_empty_statistics_are_written(file: IcebergDataFileMetaView, column: i32)
    ensures
        file.null_value_counts is None && file.lower_bounds is None && file.upper_bounds is None
            ==> is_writable(file),
        file.null_value_counts is Some && file.null_value_counts->0.dom().contains(column)
            ==> !is_writable(file),
        file.lower_bounds is Some && file.lower_bounds->0.dom().contains(column) ==> !is_writable(
            file,
        ),
        file.upper_bounds is Some && file.upper_bounds->0.dom().contains(column) ==> !is_writable(
            file,
        ),
        file.null_value_counts == Some(Map::<i32, i64>::empty()) && file.lower_bounds is None
            && file.upper_bounds is None ==> is_writable(file),
        file.null_value_counts is None && file.lower_bounds == Some(Map::<i32, Seq<u8>>::empty())
            && file.upper_bounds is None ==> is_writable(file),
        file.null_value_counts is None && file.lower_bounds is None && file.upper_bounds == Some(
            Map::<i32, Seq<u8>>::empty(),
        ) ==> is_writable(file),
{
}

/// A manifest can be written just where each of its rows can.
pub proof fn rows_are_written_together(
    entries: Seq<IcebergManifestEntryView>,
    entry: IcebergManifestEntryView,
)
    ensures
        all_writable(Seq::empty()),
        all_writable(entries.push(entry)) <==> all_writable(entries) && is_writable(
            entry.data_file,
        ),
{
    let more = entries.push(entry);
    if all_writable(more) {
        assert forall|i: int| 0 <= i < entries.len() implies is_writable(
            (#[trigger] entries[i]).data_file,
        ) by {
            assert(more[i] == entries[i]);
        }
        assert(more[entries.len() as int] == entry);
    }
}

/// The records of a container file are read back, all of them and in order.
pub proof fn containers_are_read_back(file: Seq<u8>, schema: Seq<char>, records: Seq<Avro>)
    requires
        is_container_of(file, schema, records),
    ensures
        avro_contents(file) == records,
{
}

} // verus!
