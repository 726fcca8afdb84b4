//! What the values of the library show of themselves: every field as it is.
use std::collections::HashMap;

use vstd::prelude::*;

use crate::json::{json_tree, json_trees};
use crate::manifest::{
    bounds_of, bytes_of, entry_views, manifest_file_views, IcebergDataFileMeta,
    IcebergManifestEntry, IcebergManifestFileMeta, IcebergPartitionSummary,
};
use crate::metadata::{
    field_views, iceberg_fields, partition_field_views, IcebergDataField, IcebergMetadata,
    IcebergPartitionField, IcebergPartitionSpec, IcebergSchema, IcebergSnapshot, IcebergSortOrder,
};
use crate::table::{
    manifest_entry_views, text_of, texts_of, DataField, ManifestEntry, Snapshot,
};
use crate::types::iceberg_field;
use crate::wire::{
    all_ok, field_view, field_views as description_views, row_view, row_views, RowView,
};
use crate::write::{Reply, ReplyView, Request, RequestView, Step, StepView};

verus! {

/// Optional and listed texts and buffers show what they hold, one by one.
pub proof fn texts_show_what_they_hold(
    text: String,
    texts: Seq<String>,
    bytes: Vec<u8>,
)
    ensures
        text_of(None) is None,
        text_of(Some(text)) == Some(text@),
        texts_of(texts).len() == texts.len(),
        forall|i: int| 0 <= i < texts.len() ==> #[trigger] texts_of(texts)[i] == texts[i]@,
        bytes_of(None) is None,
        bytes_of(Some(bytes)) == Some(bytes@),
{
}

/// The statistics of a data file show each column's bytes.
pub proof fn bounds_show_what_they_hold(bounds: HashMap<i32, Vec<u8>>, column: i32)
    ensures
        bounds_of(None) is None,
        bounds_of(Some(bounds)) is Some,
        bounds_of(Some(bounds))->0.dom() =~= bounds@.dom(),
        bounds@.dom().contains(column) ==> bounds_of(Some(bounds))->0[column] == bounds@[column]@,
{
}

/// A snapshot shows its id and the name of its changelog's manifest list.
pub proof fn snapshots_show_what_they_hold(snapshot: Snapshot)
    ensures
        snapshot@.id == snapshot.id,
        snapshot@.changelog_manifest_list is Some <==> snapshot.changelog_manifest_list is Some,
        snapshot.changelog_manifest_list matches Some(name)
            ==> snapshot@.changelog_manifest_list == Some(name@),
{
}

/// An entry of a manifest shows its kind, its bucket and its file.
pub proof fn manifest_entries_show_what_they_hold(entry: ManifestEntry)
    ensures
        entry@.kind == entry.kind,
        entry@.bucket == entry.bucket,
        entry@.file.file_name == entry.file.file_name@,
        entry@.file.file_size == entry.file.file_size,
        entry@.file.row_count == entry.file.row_count,
        entry@.file.external_path is Some <==> entry.file.external_path is Some,
        entry.file.external_path matches Some(path) ==> entry@.file.external_path == Some(path@),
{
}

/// The entries of a manifest show themselves one by one.
pub proof fn lists_of_entries_show_what_they_hold(
    entries: Seq<ManifestEntry>,
    rows: Seq<IcebergManifestEntry>,
    metas: Seq<IcebergManifestFileMeta>,
)
    ensures
        manifest_entry_views(entries).len() == entries.len(),
        forall|i: int|
            0 <= i < entries.len() ==> #[trigger] manifest_entry_views(entries)[i] == entries[i]@,
        entry_views(rows).len() == rows.len(),
        forall|i: int| 0 <= i < rows.len() ==> #[trigger] entry_views(rows)[i] == rows[i]@,
        manifest_file_views(metas).len() == metas.len(),
        forall|i: int|
            0 <= i < metas.len() ==> #[trigger] manifest_file_views(metas)[i] == metas[i]@,
{
}

/// A row of a manifest shows its numbers.
pub proof fn rows_show_what_they_hold(row: IcebergManifestEntry)
    ensures
        row@.status == row.status,
        row@.snapshot_id == row.snapshot_id,
        row@.sequence_number == row.sequence_number,
        row@.file_sequence_number == row.file_sequence_number,
        row@.data_file == row.data_file@,
{
}

/// A data file shows its path, its format, its numbers and its statistics.
pub proof fn data_files_show_what_they_hold(file: IcebergDataFileMeta)
    ensures
        file@.content == file.content,
        file@.file_path == file.file_path@,
        file@.file_format == file.file_format@,
        file@.record_count == file.record_count,
        file@.file_size_in_bytes == file.file_size_in_bytes,
        file@.null_value_counts is Some <==> file.null_value_counts is Some,
        file.null_value_counts matches Some(counts) ==> file@.null_value_counts == Some(counts@),
        file@.lower_bounds == bounds_of(file.lower_bounds),
        file@.upper_bounds == bounds_of(file.upper_bounds),
        file@.referenced_data_file == text_of(file.referenced_data_file),
        file@.content_offset == file.content_offset,
        file@.content_size_in_bytes == file.content_size_in_bytes,
{
}

/// A row of a manifest list shows its path and its numbers.
pub proof fn summaries_show_what_they_hold(meta: IcebergManifestFileMeta)
    ensures
        meta@.manifest_path == meta.manifest_path@,
        meta@.manifest_length == meta.manifest_length,
        meta@.partition_spec_id == meta.partition_spec_id,
        meta@.content == meta.content,
        meta@.sequence_number == meta.sequence_number,
        meta@.min_sequence_number == meta.min_sequence_number,
        meta@.added_snapshot_id == meta.added_snapshot_id,
        meta@.added_files_count == meta.added_files_count,
        meta@.existing_files_count == meta.existing_files_count,
        meta@.deleted_files_count == meta.deleted_files_count,
        meta@.added_rows_count == meta.added_rows_count,
        meta@.existing_rows_count == meta.existing_rows_count,
        meta@.deleted_rows_count == meta.deleted_rows_count,
        meta@.partitions is Some <==> meta.partitions is Some,
        meta.partitions matches Some(partitions) ==> {
            &&& meta@.partitions->0.len() == partitions@.len()
            &&& forall|i: int|
                0 <= i < partitions@.len() ==> #[trigger] meta@.partitions->0[i]
                    == partitions@[i]@
        },
{
}

/// A partition summary shows its flags and its bounds.
pub proof fn partition_summaries_show_what_they_hold(summary: IcebergPartitionSummary)
    ensures
        summary@.contains_null == summary.contains_null,
        summary@.contains_nan == summary.contains_nan,
        summary@.lower_bound == bytes_of(summary.lower_bound),
        summary@.upper_bound == bytes_of(summary.upper_bound),
{
}

/// A column shows its id, name, nullability, type and documentation.
pub proof fn columns_show_what_they_hold(field: IcebergDataField)
    ensures
        field@.id == field.id,
        field@.name == field.name@,
        field@.required == field.required,
        field@.type_val == json_tree(field.type_val),
        field@.doc == text_of(field.doc),
{
}

/// A schema shows its type, its id and its columns, one by one.
pub proof fn schemas_show_what_they_hold(schema: IcebergSchema)
    ensures
        schema@.type_val == schema.type_val@,
        schema@.schema_id == schema.schema_id,
        schema@.fields.len() == schema.fields@.len(),
        forall|i: int|
            0 <= i < schema.fields@.len() ==> #[trigger] schema@.fields[i] == schema.fields@[i]@,
{
}

/// Lists of columns show themselves one by one, and the columns of a table have
/// one Iceberg column each.
pub proof fn lists_of_columns_show_what_they_hold(
    columns: Seq<IcebergDataField>,
    fields: Seq<DataField>,
)
    ensures
        field_views(columns).len() == columns.len(),
        forall|i: int| 0 <= i < columns.len() ==> #[trigger] field_views(columns)[i] == columns[i]@,
        iceberg_fields(fields).len() == fields.len(),
        forall|i: int|
            0 <= i < fields.len() ==> #[trigger] iceberg_fields(fields)[i] == iceberg_field(
                fields[i],
            ),
{
}

/// A partition field shows its name, its transform and its ids.
pub proof fn partition_fields_show_what_they_hold(
    field: IcebergPartitionField,
    fields: Seq<IcebergPartitionField>,
)
    ensures
        field@.name == field.name@,
        field@.transform == field.transform@,
        field@.source_id == field.source_id,
        field@.field_id == field.field_id,
        partition_field_views(fields).len() == fields.len(),
        forall|i: int|
            0 <= i < fields.len() ==> #[trigger] partition_field_views(fields)[i] == fields[i]@,
{
}

/// Partition specs and sort orders show their ids and their fields.
pub proof fn specs_and_orders_show_what_they_hold(
    spec_: IcebergPartitionSpec,
    order: IcebergSortOrder,
)
    ensures
        spec_@.spec_id == spec_.spec_id,
        spec_@.fields == partition_field_views(spec_.fields@),
        order@.order_id == order.order_id,
        order@.fields == json_trees(order.fields@),
        order@.fields.len() == order.fields@.len(),
        forall|i: int|
            0 <= i < order.fields@.len() ==> #[trigger] order@.fields[i] == json_tree(
                order.fields@[i],
            ),
{
}

/// A snapshot of a companion table shows its numbers, its time, its summary and
/// its manifest list.
pub proof fn companion_snapshots_show_what_they_hold(snapshot: IcebergSnapshot)
    ensures
        snapshot@.sequence_number == snapshot.sequence_number,
        snapshot@.snapshot_id == snapshot.snapshot_id,
        snapshot@.parent_snapshot_id == snapshot.parent_snapshot_id,
        snapshot@.timestamp_ms == snapshot.timestamp_ms,
        snapshot@.summary == snapshot.summary@,
        snapshot@.manifest_list == snapshot.manifest_list@,
        snapshot@.schema_id == snapshot.schema_id,
        snapshot@.first_row_id == snapshot.first_row_id,
        snapshot@.added_rows == snapshot.added_rows,
{
}

/// A document shows its numbers, texts and lists.
pub proof fn documents_show_what_they_hold(metadata: IcebergMetadata)
    ensures
        metadata@.format_version == metadata.format_version,
        metadata@.table_uuid == metadata.table_uuid@,
        metadata@.location == metadata.location@,
        metadata@.last_sequence_number == metadata.last_sequence_number,
        metadata@.last_updated_ms == metadata.last_updated_ms,
        metadata@.last_column_id == metadata.last_column_id,
        metadata@.current_schema_id == metadata.current_schema_id,
        metadata@.default_spec_id == metadata.default_spec_id,
        metadata@.last_partition_id == metadata.last_partition_id,
        metadata@.default_sort_order_id == metadata.default_sort_order_id,
        metadata@.current_snapshot_id == metadata.current_snapshot_id,
        metadata@.properties == metadata.properties@,
        metadata@.schemas.len() == metadata.schemas@.len(),
        forall|i: int|
            0 <= i < metadata.schemas@.len() ==> #[trigger] metadata@.schemas[i]
                == metadata.schemas@[i]@,
        metadata@.partition_specs.len() == metadata.partition_specs@.len(),
        forall|i: int|
            0 <= i < metadata.partition_specs@.len() ==> #[trigger] metadata@.partition_specs[i]
                == metadata.partition_specs@[i]@,
        metadata@.sort_orders.len() == metadata.sort_orders@.len(),
        forall|i: int|
            0 <= i < metadata.sort_orders@.len() ==> #[trigger] metadata@.sort_orders[i]
                == metadata.sort_orders@[i]@,
        metadata@.snapshots.len() == metadata.snapshots@.len(),
        forall|i: int|
            0 <= i < metadata.snapshots@.len() ==> #[trigger] metadata@.snapshots[i]
                == metadata.snapshots@[i]@,
{
}

/// A request shows what is asked for.
pub proof fn requests_show_what_they_hold(request: Request)
    ensures
        match request {
            Request::CheckExists { path } => request@ == (RequestView::CheckExists { path: path@ }),
            Request::FindEarliestSnapshot => request@ is FindEarliestSnapshot,
            Request::LoadSnapshot { id } => request@ == (RequestView::LoadSnapshot { id }),
            Request::ReadManifestList { path } => request@ == (RequestView::ReadManifestList {
                path: path@,
            }),
            Request::ReadManifest { path } => request@ == (RequestView::ReadManifest {
                path: path@,
            }),
            Request::WriteFile { path, bytes } => request@ == (RequestView::WriteFile {
                path: path@,
                bytes: bytes@,
            }),
            Request::ReadFile { path } => request@ == (RequestView::ReadFile { path: path@ }),
            Request::ReadTableUuid { document } => request@ == (RequestView::ReadTableUuid {
                document: document@,
            }),
            Request::ReadClock => request@ is ReadClock,
        },
{
}

/// A reply shows what was answered.
pub proof fn replies_show_what_they_hold(reply: Reply)
    ensures
        match reply {
            Reply::Exists(found) => reply@ == ReplyView::Exists(found),
            Reply::EarliestSnapshot(id) => reply@ == ReplyView::EarliestSnapshot(id),
            Reply::LoadedSnapshot(snapshot) => reply@ == ReplyView::LoadedSnapshot(snapshot@),
            Reply::Manifests(names) => reply@ == ReplyView::Manifests(texts_of(names@)),
            Reply::Entries(entries) => reply@ == ReplyView::Entries(
                manifest_entry_views(entries@),
            ),
            Reply::Written => reply@ is Written,
            Reply::File(Some(bytes)) => reply@ == ReplyView::File(Some(bytes@)),
            Reply::File(None) => reply@ == ReplyView::File(None),
            Reply::TableUuid(uuid) => reply@ == ReplyView::TableUuid(text_of(uuid)),
            Reply::Clock(ms) => reply@ == ReplyView::Clock(ms),
            Reply::Failed => reply@ is Failed,
        },
{
}

/// A step shows what it is.
pub proof fn steps_show_what_they_hold(step: Step)
    ensures
        match step {
            Step::Ask(request) => step@ == StepView::Ask(request@),
            Step::Done(written) => step@ == StepView::Done(written),
            Step::Failed => step@ is Failed,
            Step::Invalid(_) => step@ is Invalid,
            Step::Overflow => step@ is Overflow,
        },
{
}

/// Descriptions and messages show themselves one by one. A message that was not
/// encoded shows as none.
pub proof fn messages_show_what_they_hold(
    infos: Seq<pgwire::api::results::FieldInfo>,
    rows: Seq<Result<pgwire::messages::data::DataRow, pgwire::error::PgWireError>>,
    views: Seq<RowView>,
)
    ensures
        description_views(infos).len() == infos.len(),
        forall|i: int|
            0 <= i < infos.len() ==> #[trigger] description_views(infos)[i]
                == field_view(infos[i]),
        row_views(rows).len() == rows.len(),
        forall|i: int|
            0 <= i < rows.len() ==> {
                &&& (#[trigger] row_views(rows)[i] is Some <==> rows[i] is Ok)
                &&& rows[i] is Ok ==> row_views(rows)[i] == Some(
                    row_view(rows[i]->Ok_0),
                )
            },
        all_ok(views).len() == views.len(),
        forall|i: int| 0 <= i < views.len() ==> #[trigger] all_ok(views)[i] == Some(views[i]),
{
}

} // verus!
