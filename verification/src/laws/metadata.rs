//! What a metadata document and its parts hold.
use vstd::prelude::*;

use crate::json::Json;
use crate::metadata::{
    append_summary, changelog_metadata, highest_id, highest_id_is_attained, highest_partition_id,
    highest_partition_id_is_attained, identity_field, name_mapping, name_mapping_entries,
    name_mapping_entry, primitive_field, struct_schema, unsorted, uppercase, IcebergDataFieldView,
    IcebergPartitionFieldView, IcebergSchemaView,
};
use crate::text::{escaped, int_text, parsed_i64, printed_integers_parse};

verus! {

/// A changelog document carries what it was built with: each of the format
/// version, the table's id and location, the snapshot's id, the columns, the
/// partition fields, the manifest list and the time stands in the document as
/// it was given. The snapshot has no parent and no row lineage, and appends.
pub proof fn a_document_carries_what_it_was_built_with(
    format_version: i32,
    table_uuid: Seq<char>,
    table_location: Seq<char>,
    snapshot_id: i64,
    base_schema: IcebergSchemaView,
    changelog_schema: IcebergSchemaView,
    partition_fields: Seq<IcebergPartitionFieldView>,
    manifest_list_path: Seq<char>,
    timestamp_ms: u64,
)
    ensures
        ({
            let metadata = changelog_metadata(
                format_version,
                table_uuid,
                table_location,
                snapshot_id,
                base_schema,
                changelog_schema,
                partition_fields,
                manifest_list_path,
                timestamp_ms,
            );
            let snapshot = metadata.snapshots[0];
            &&& metadata.format_version == format_version
            &&& metadata.table_uuid == table_uuid
            &&& metadata.location == table_location
            &&& metadata.last_sequence_number == snapshot_id
            &&& metadata.last_updated_ms == timestamp_ms
            &&& metadata.schemas.len() == 1
            &&& metadata.schemas[0] == changelog_schema
            &&& metadata.current_schema_id == base_schema.schema_id
            &&& metadata.partition_specs.len() == 1
            &&& metadata.partition_specs[0].spec_id == 0
            &&& metadata.partition_specs[0].fields == partition_fields
            &&& metadata.default_spec_id == 0
            &&& metadata.sort_orders.len() == 1
            &&& metadata.sort_orders[0].order_id == 0
            &&& metadata.sort_orders[0].fields.len() == 0
            &&& metadata.default_sort_order_id == 0
            &&& metadata.snapshots.len() == 1
            &&& metadata.current_snapshot_id == snapshot_id
            &&& snapshot.snapshot_id == snapshot_id
            &&& snapshot.sequence_number == snapshot_id
            &&& snapshot.parent_snapshot_id is None
            &&& snapshot.timestamp_ms == timestamp_ms
            &&& snapshot.manifest_list == manifest_list_path
            &&& snapshot.schema_id == base_schema.schema_id
            &&& snapshot.summary == seq![("operation"@, "append"@)]
            &&& snapshot.first_row_id is None
            &&& snapshot.added_rows is None
            &&& metadata.properties.len() == 1
            &&& metadata.properties[0].0 == "schema.name-mapping.default"@
            &&& metadata.properties[0].1 == name_mapping(changelog_schema.fields)
        }),
{
}

/// The last ids of a document are the greatest of its columns and of its
/// partition fields. A document without partition fields has the last partition
/// id 999, so that the first one will be 1000.
pub proof fn a_document_knows_its_last_ids(
    format_version: i32,
    table_uuid: Seq<char>,
    table_location: Seq<char>,
    snapshot_id: i64,
    base_schema: IcebergSchemaView,
    changelog_schema: IcebergSchemaView,
    partition_fields: Seq<IcebergPartitionFieldView>,
    manifest_list_path: Seq<char>,
    timestamp_ms: u64,
)
    ensures
        ({
            let metadata = changelog_metadata(
                format_version,
                table_uuid,
                table_location,
                snapshot_id,
                base_schema,
                changelog_schema,
                partition_fields,
                manifest_list_path,
                timestamp_ms,
            );
            &&& forall|i: int|
                0 <= i < changelog_schema.fields.len() ==> (
                #[trigger] changelog_schema.fields[i]).id <= metadata.last_column_id
            &&& changelog_schema.fields.len() > 0 ==> exists|i: int|
                0 <= i < changelog_schema.fields.len() && (
                #[trigger] changelog_schema.fields[i]).id == metadata.last_column_id
            &&& changelog_schema.fields.len() == 0 ==> metadata.last_column_id == 0
            &&& forall|i: int|
                0 <= i < partition_fields.len() ==> (#[trigger] partition_fields[i]).field_id
                    <= metadata.last_partition_id
            &&& partition_fields.len() > 0 ==> exists|i: int|
                0 <= i < partition_fields.len() && (#[trigger] partition_fields[i]).field_id
                    == metadata.last_partition_id
            &&& partition_fields.len() == 0 ==> metadata.last_partition_id == 999
        }),
{
    highest_id_is_attained(changelog_schema.fields);
    highest_partition_id_is_attained(partition_fields);
}

/// Where there is no column the highest id is 0, and where there is no partition
/// field it is 999.
pub proof fn highest_ids_of_nothing()
    ensures
        highest_id(Seq::empty()) == 0,
        highest_partition_id(Seq::empty()) == 999,
{
}

/// The parts of a document are made of what they are given.
pub proof fn parts_are_made_of_what_they_are_given(
    id: i32,
    other: i32,
    name: Seq<char>,
    primitive: Seq<char>,
    nullable: bool,
    fields: Seq<IcebergDataFieldView>,
)
    ensures
        primitive_field(id, name, primitive, nullable).id == id,
        primitive_field(id, name, primitive, nullable).name == name,
        primitive_field(id, name, primitive, nullable).required != nullable,
        primitive_field(id, name, primitive, nullable).type_val == Json::Text(primitive),
        primitive_field(id, name, primitive, nullable).doc is None,
        struct_schema(id, fields).schema_id == id,
        struct_schema(id, fields).fields == fields,
        struct_schema(id, fields).type_val == "struct"@,
        identity_field(name, id, other).name == name,
        identity_field(name, id, other).source_id == id,
        identity_field(name, id, other).field_id == other,
        identity_field(name, id, other).transform == "identity"@,
        unsorted().order_id == 0,
        unsorted().fields.len() == 0,
        append_summary() == seq![("operation"@, "append"@)],
{
}

/// Whether a text is the entry of a name mapping for a column: the column's id
/// can be read off it, and its names are the column's name and, where it is
/// another one, the upper-case form of it.
pub open spec fn is_mapping_entry(
    text: Seq<char>,
    id: i32,
    name: Seq<char>,
    upper: Seq<char>,
) -> bool {
    exists|digits: Seq<char>|
        {
            &&& parsed_i64(digits) == Some(id as i64)
            &&& if upper == name {
                text == #[trigger] ("{\"field-id\":"@ + digits) + ",\"names\":[\""@ + escaped(name)
                    + "\"]}"@
            } else {
                text == ("{\"field-id\":"@ + digits) + ",\"names\":[\""@ + escaped(name) + "\",\""@
                    + escaped(upper) + "\"]}"@
            }
        }
}

/// The entry for a column carries the column's id and names.
pub proof fn an_entry_carries_its_column(id: i32, name: Seq<char>, upper: Seq<char>)
    ensures
        is_mapping_entry(name_mapping_entry(id, name, upper), id, name, upper),
{
    let digits = int_text(id as int);
    printed_integers_parse(id as i64);
    let start = "{\"field-id\":"@ + digits;
    assert(parsed_i64(digits) == Some(id as i64));
}

/// A name mapping is a JSON array with one entry per column, in the order of the
/// columns: without columns it is the empty array, and one more column adds its
/// entry at the end.
pub proof fn a_mapping_has_an_entry_per_column(
    fields: Seq<IcebergDataFieldView>,
    field: IcebergDataFieldView,
)
    ensures
        name_mapping(Seq::empty()) == "[]"@,
        exists|entry: Seq<char>|
            {
                &&& is_mapping_entry(entry, field.id, field.name, uppercase(field.name))
                &&& fields.len() == 0 ==> name_mapping(fields.push(field)) == #[trigger] ("["@
                    + entry) + "]"@
                &&& fields.len() > 0 ==> name_mapping(fields.push(field)) == name_mapping(
                    fields,
                ).drop_last() + ","@ + entry + "]"@
            },
{
    reveal_strlit("[");
    reveal_strlit("]");
    reveal_strlit("[]");
    assert(name_mapping(Seq::empty()) =~= "[]"@);
    let entry = name_mapping_entry(field.id, field.name, uppercase(field.name));
    an_entry_carries_its_column(field.id, field.name, uppercase(field.name));
    assert(fields.push(field).drop_last() =~= fields);
    assert(fields.push(field).last() == field);
    let single = ("["@ + entry) + "]"@;
    if fields.len() > 0 {
        assert(name_mapping(fields).drop_last() =~= "["@ + name_mapping_entries(fields));
        assert(name_mapping(fields.push(field)) =~= name_mapping(fields).drop_last() + ","@ + entry
            + "]"@);
    } else {
        assert(name_mapping(fields.push(field)) == ("["@ + entry) + "]"@);
    }
}

} // verus!
