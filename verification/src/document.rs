//! The JSON form of the metadata document: which members it has, under which
//! names and in which order.
use vstd::prelude::*;

use crate::error::MetadataError;
use crate::json::{
    add_member, distinct_names, is_readable, json_array, json_clone, json_int, json_members,
    json_object, json_parsed, json_pretty, json_print, json_tree, json_trees, json_unsigned,
    text_value, Json, NESTING_LIMIT,
};
use crate::metadata::{
    IcebergDataFieldView, IcebergMetadata, IcebergMetadataView, IcebergPartitionField,
    IcebergPartitionFieldView, IcebergPartitionSpec, IcebergPartitionSpecView, IcebergSchema,
    IcebergSchemaView, IcebergSnapshot, IcebergSnapshotView, IcebergSortOrder,
    IcebergSortOrderView,
};
use crate::string_map::map_tree;
use crate::types::{field_tree, field_value};

verus! {

/// The JSON object for a schema.
pub open spec fn schema_tree(schema: IcebergSchemaView) -> Json {
    Json::Object(
        seq![
            ("type"@, Json::Text(schema.type_val)),
            ("schema-id"@, Json::Int(schema.schema_id as int)),
            (
                "fields"@,
                Json::Array(Seq::new(schema.fields.len(), |i: int| field_tree(schema.fields[i]))),
            ),
        ],
    )
}

/// The JSON object for a partition field.
pub open spec fn partition_field_tree(field: IcebergPartitionFieldView) -> Json {
    Json::Object(
        seq![
            ("name"@, Json::Text(field.name)),
            ("transform"@, Json::Text(field.transform)),
            ("source-id"@, Json::Int(field.source_id as int)),
            ("field-id"@, Json::Int(field.field_id as int)),
        ],
    )
}

/// The JSON object for a partition spec.
pub open spec fn partition_spec_tree(spec_: IcebergPartitionSpecView) -> Json {
    Json::Object(
        seq![
            ("spec-id"@, Json::Int(spec_.spec_id as int)),
            (
                "fields"@,
                Json::Array(
                    Seq::new(spec_.fields.len(), |i: int| partition_field_tree(spec_.fields[i])),
                ),
            ),
        ],
    )
}

/// The JSON object for a sort order.
pub open spec fn sort_order_tree(order: IcebergSortOrderView) -> Json {
    Json::Object(
        seq![
            ("order-id"@, Json::Int(order.order_id as int)),
            ("fields"@, Json::Array(order.fields)),
        ],
    )
}

/// The member for an optional number: none where there is no number.
pub open spec fn optional_member(name: Seq<char>, number: Option<i64>) -> Seq<(Seq<char>, Json)> {
    match number {
        Some(n) => seq![(name, Json::Int(n as int))],
        None => Seq::empty(),
    }
}

/// The JSON object for a snapshot.
pub open spec fn snapshot_tree(snapshot: IcebergSnapshotView) -> Json {
    Json::Object(
        seq![
            ("sequence-number"@, Json::Int(snapshot.sequence_number as int)),
            ("snapshot-id"@, Json::Int(snapshot.snapshot_id as int)),
        ] + optional_member("parent-snapshot-id"@, snapshot.parent_snapshot_id) + seq![
            ("timestamp-ms"@, Json::Int(snapshot.timestamp_ms as int)),
            ("summary"@, map_tree(snapshot.summary)),
            ("manifest-list"@, Json::Text(snapshot.manifest_list)),
            ("schema-id"@, Json::Int(snapshot.schema_id as int)),
        ] + optional_member("first-row-id"@, snapshot.first_row_id) + optional_member(
            "added-rows"@,
            snapshot.added_rows,
        ),
    )
}

/// The `metadata.json` document. A table without properties has no
/// `properties` member.
pub open spec fn metadata_tree(metadata: IcebergMetadataView) -> Json {
    let members = seq![
        ("format-version"@, Json::Int(metadata.format_version as int)),
        ("table-uuid"@, Json::Text(metadata.table_uuid)),
        ("location"@, Json::Text(metadata.location)),
        ("last-sequence-number"@, Json::Int(metadata.last_sequence_number as int)),
        ("last-updated-ms"@, Json::Int(metadata.last_updated_ms as int)),
        ("last-column-id"@, Json::Int(metadata.last_column_id as int)),
        (
            "schemas"@,
            Json::Array(Seq::new(metadata.schemas.len(), |i: int| schema_tree(metadata.schemas[i]))),
        ),
        ("current-schema-id"@, Json::Int(metadata.current_schema_id as int)),
        (
            "partition-specs"@,
            Json::Array(
                Seq::new(
                    metadata.partition_specs.len(),
                    |i: int| partition_spec_tree(metadata.partition_specs[i]),
                ),
            ),
        ),
        ("default-spec-id"@, Json::Int(metadata.default_spec_id as int)),
        ("last-partition-id"@, Json::Int(metadata.last_partition_id as int)),
        (
            "sort-orders"@,
            Json::Array(
                Seq::new(
                    metadata.sort_orders.len(),
                    |i: int| sort_order_tree(metadata.sort_orders[i]),
                ),
            ),
        ),
        ("default-sort-order-id"@, Json::Int(metadata.default_sort_order_id as int)),
        (
            "snapshots"@,
            Json::Array(
                Seq::new(metadata.snapshots.len(), |i: int| snapshot_tree(metadata.snapshots[i])),
            ),
        ),
        ("current-snapshot-id"@, Json::Int(metadata.current_snapshot_id as int)),
    ];
    if metadata.properties.len() == 0 {
        Json::Object(members)
    } else {
        Json::Object(members.push(("properties"@, map_tree(metadata.properties))))
    }
}

/// The names in a schema's object are distinct.
proof fn schema_names_distinct()
    ensures
        "type"@ != "schema-id"@,
        "type"@ != "fields"@,
        "schema-id"@ != "fields"@,
{
    reveal_strlit("type");
    assert("type"@.len() == 4);
    reveal_strlit("schema-id");
    assert("schema-id"@.len() == 9);
    reveal_strlit("fields");
    assert("fields"@.len() == 6);
}

/// The names in a partition field's object are distinct.
proof fn partition_field_names_distinct()
    ensures
        "name"@ != "transform"@,
        "name"@ != "source-id"@,
        "name"@ != "field-id"@,
        "transform"@ != "source-id"@,
        "transform"@ != "field-id"@,
        "source-id"@ != "field-id"@,
{
    reveal_strlit("name");
    assert("name"@.len() == 4);
    reveal_strlit("transform");
    assert("transform"@.len() == 9);
    assert("transform"@[0] == 't');
    reveal_strlit("source-id");
    assert("source-id"@.len() == 9);
    assert("source-id"@[0] == 's');
    reveal_strlit("field-id");
    assert("field-id"@.len() == 8);
}

/// The names in the objects of partition specs and sort orders are distinct.
proof fn list_names_distinct()
    ensures
        "spec-id"@ != "order-id"@,
        "spec-id"@ != "fields"@,
        "order-id"@ != "fields"@,
{
    reveal_strlit("spec-id");
    assert("spec-id"@.len() == 7);
    reveal_strlit("order-id");
    assert("order-id"@.len() == 8);
    reveal_strlit("fields");
    assert("fields"@.len() == 6);
}

/// The names in a snapshot's object are distinct.
proof fn snapshot_names_distinct()
    ensures
        "sequence-number"@ != "snapshot-id"@,
        "sequence-number"@ != "parent-snapshot-id"@,
        "sequence-number"@ != "timestamp-ms"@,
        "sequence-number"@ != "summary"@,
        "sequence-number"@ != "manifest-list"@,
        "sequence-number"@ != "schema-id"@,
        "sequence-number"@ != "first-row-id"@,
        "sequence-number"@ != "added-rows"@,
        "snapshot-id"@ != "parent-snapshot-id"@,
        "snapshot-id"@ != "timestamp-ms"@,
        "snapshot-id"@ != "summary"@,
        "snapshot-id"@ != "manifest-list"@,
        "snapshot-id"@ != "schema-id"@,
        "snapshot-id"@ != "first-row-id"@,
        "snapshot-id"@ != "added-rows"@,
        "parent-snapshot-id"@ != "timestamp-ms"@,
        "parent-snapshot-id"@ != "summary"@,
        "parent-snapshot-id"@ != "manifest-list"@,
        "parent-snapshot-id"@ != "schema-id"@,
        "parent-snapshot-id"@ != "first-row-id"@,
        "parent-snapshot-id"@ != "added-rows"@,
        "timestamp-ms"@ != "summary"@,
        "timestamp-ms"@ != "manifest-list"@,
        "timestamp-ms"@ != "schema-id"@,
        "timestamp-ms"@ != "first-row-id"@,
        "timestamp-ms"@ != "added-rows"@,
        "summary"@ != "manifest-list"@,
        "summary"@ != "schema-id"@,
        "summary"@ != "first-row-id"@,
        "summary"@ != "added-rows"@,
        "manifest-list"@ != "schema-id"@,
        "manifest-list"@ != "first-row-id"@,
        "manifest-list"@ != "added-rows"@,
        "schema-id"@ != "first-row-id"@,
        "schema-id"@ != "added-rows"@,
        "first-row-id"@ != "added-rows"@,
{
    reveal_strlit("sequence-number");
    assert("sequence-number"@.len() == 15);
    reveal_strlit("snapshot-id");
    assert("snapshot-id"@.len() == 11);
    reveal_strlit("parent-snapshot-id");
    assert("parent-snapshot-id"@.len() == 18);
    reveal_strlit("timestamp-ms");
    assert("timestamp-ms"@.len() == 12);
    assert("timestamp-ms"@[0] == 't');
    reveal_strlit("summary");
    assert("summary"@.len() == 7);
    reveal_strlit("manifest-list");
    assert("manifest-list"@.len() == 13);
    reveal_strlit("schema-id");
    assert("schema-id"@.len() == 9);
    reveal_strlit("first-row-id");
    assert("first-row-id"@.len() == 12);
    assert("first-row-id"@[0] == 'f');
    reveal_strlit("added-rows");
    assert("added-rows"@.len() == 10);
}

/// The names in the document are distinct.
proof fn metadata_names_distinct()
    ensures
        "format-version"@ != "table-uuid"@,
        "format-version"@ != "location"@,
        "format-version"@ != "last-sequence-number"@,
        "format-version"@ != "last-updated-ms"@,
        "format-version"@ != "last-column-id"@,
        "format-version"@ != "schemas"@,
        "format-version"@ != "current-schema-id"@,
        "format-version"@ != "partition-specs"@,
        "format-version"@ != "default-spec-id"@,
        "format-version"@ != "last-partition-id"@,
        "format-version"@ != "sort-orders"@,
        "format-version"@ != "default-sort-order-id"@,
        "format-version"@ != "snapshots"@,
        "format-version"@ != "current-snapshot-id"@,
        "format-version"@ != "properties"@,
        "table-uuid"@ != "location"@,
        "table-uuid"@ != "last-sequence-number"@,
        "table-uuid"@ != "last-updated-ms"@,
        "table-uuid"@ != "last-column-id"@,
        "table-uuid"@ != "schemas"@,
        "table-uuid"@ != "current-schema-id"@,
        "table-uuid"@ != "partition-specs"@,
        "table-uuid"@ != "default-spec-id"@,
        "table-uuid"@ != "last-partition-id"@,
        "table-uuid"@ != "sort-orders"@,
        "table-uuid"@ != "default-sort-order-id"@,
        "table-uuid"@ != "snapshots"@,
        "table-uuid"@ != "current-snapshot-id"@,
        "table-uuid"@ != "properties"@,
        "location"@ != "last-sequence-number"@,
        "location"@ != "last-updated-ms"@,
        "location"@ != "last-column-id"@,
        "location"@ != "schemas"@,
        "location"@ != "current-schema-id"@,
        "location"@ != "partition-specs"@,
        "location"@ != "default-spec-id"@,
        "location"@ != "last-partition-id"@,
        "location"@ != "sort-orders"@,
        "location"@ != "default-sort-order-id"@,
        "location"@ != "snapshots"@,
        "location"@ != "current-snapshot-id"@,
        "location"@ != "properties"@,
        "last-sequence-number"@ != "last-updated-ms"@,
        "last-sequence-number"@ != "last-column-id"@,
        "last-sequence-number"@ != "schemas"@,
        "last-sequence-number"@ != "current-schema-id"@,
        "last-sequence-number"@ != "partition-specs"@,
        "last-sequence-number"@ != "default-spec-id"@,
        "last-sequence-number"@ != "last-partition-id"@,
        "last-sequence-number"@ != "sort-orders"@,
        "last-sequence-number"@ != "default-sort-order-id"@,
        "last-sequence-number"@ != "snapshots"@,
        "last-sequence-number"@ != "current-snapshot-id"@,
        "last-sequence-number"@ != "properties"@,
        "last-updated-ms"@ != "last-column-id"@,
        "last-updated-ms"@ != "schemas"@,
        "last-updated-ms"@ != "current-schema-id"@,
        "last-updated-ms"@ != "partition-specs"@,
        "last-updated-ms"@ != "default-spec-id"@,
        "last-updated-ms"@ != "last-partition-id"@,
        "last-updated-ms"@ != "sort-orders"@,
        "last-updated-ms"@ != "default-sort-order-id"@,
        "last-updated-ms"@ != "snapshots"@,
        "last-updated-ms"@ != "current-snapshot-id"@,
        "last-updated-ms"@ != "properties"@,
        "last-column-id"@ != "schemas"@,
        "last-column-id"@ != "current-schema-id"@,
        "last-column-id"@ != "partition-specs"@,
        "last-column-id"@ != "default-spec-id"@,
        "last-column-id"@ != "last-partition-id"@,
        "last-column-id"@ != "sort-orders"@,
        "last-column-id"@ != "default-sort-order-id"@,
        "last-column-id"@ != "snapshots"@,
        "last-column-id"@ != "current-snapshot-id"@,
        "last-column-id"@ != "properties"@,
        "schemas"@ != "current-schema-id"@,
        "schemas"@ != "partition-specs"@,
        "schemas"@ != "default-spec-id"@,
        "schemas"@ != "last-partition-id"@,
        "schemas"@ != "sort-orders"@,
        "schemas"@ != "default-sort-order-id"@,
        "schemas"@ != "snapshots"@,
        "schemas"@ != "current-snapshot-id"@,
        "schemas"@ != "properties"@,
        "current-schema-id"@ != "partition-specs"@,
        "current-schema-id"@ != "default-spec-id"@,
        "current-schema-id"@ != "last-partition-id"@,
        "current-schema-id"@ != "sort-orders"@,
        "current-schema-id"@ != "default-sort-order-id"@,
        "current-schema-id"@ != "snapshots"@,
        "current-schema-id"@ != "current-snapshot-id"@,
        "current-schema-id"@ != "properties"@,
        "partition-specs"@ != "default-spec-id"@,
        "partition-specs"@ != "last-partition-id"@,
        "partition-specs"@ != "sort-orders"@,
        "partition-specs"@ != "default-sort-order-id"@,
        "partition-specs"@ != "snapshots"@,
        "partition-specs"@ != "current-snapshot-id"@,
        "partition-specs"@ != "properties"@,
        "default-spec-id"@ != "last-partition-id"@,
        "default-spec-id"@ != "sort-orders"@,
        "default-spec-id"@ != "default-sort-order-id"@,
        "default-spec-id"@ != "snapshots"@,
        "default-spec-id"@ != "current-snapshot-id"@,
        "default-spec-id"@ != "properties"@,
        "last-partition-id"@ != "sort-orders"@,
        "last-partition-id"@ != "default-sort-order-id"@,
        "last-partition-id"@ != "snapshots"@,
        "last-partition-id"@ != "current-snapshot-id"@,
        "last-partition-id"@ != "properties"@,
        "sort-orders"@ != "default-sort-order-id"@,
        "sort-orders"@ != "snapshots"@,
        "sort-orders"@ != "current-snapshot-id"@,
        "sort-orders"@ != "properties"@,
        "default-sort-order-id"@ != "snapshots"@,
        "default-sort-order-id"@ != "current-snapshot-id"@,
        "default-sort-order-id"@ != "properties"@,
        "snapshots"@ != "current-snapshot-id"@,
        "snapshots"@ != "properties"@,
        "current-snapshot-id"@ != "properties"@,
{
    reveal_strlit("format-version");
    assert("format-version"@.len() == 14);
    assert("format-version"@[0] == 'f');
    reveal_strlit("table-uuid");
    assert("table-uuid"@.len() == 10);
    assert("table-uuid"@[0] == 't');
    reveal_strlit("location");
    assert("location"@.len() == 8);
    reveal_strlit("last-sequence-number");
    assert("last-sequence-number"@.len() == 20);
    reveal_strlit("last-updated-ms");
    assert("last-updated-ms"@.len() == 15);
    assert("last-updated-ms"@[0] == 'l');
    reveal_strlit("last-column-id");
    assert("last-column-id"@.len() == 14);
    assert("last-column-id"@[0] == 'l');
    reveal_strlit("schemas");
    assert("schemas"@.len() == 7);
    reveal_strlit("current-schema-id");
    assert("current-schema-id"@.len() == 17);
    assert("current-schema-id"@[0] == 'c');
    reveal_strlit("partition-specs");
    assert("partition-specs"@.len() == 15);
    assert("partition-specs"@[0] == 'p');
    reveal_strlit("default-spec-id");
    assert("default-spec-id"@.len() == 15);
    assert("default-spec-id"@[0] == 'd');
    reveal_strlit("last-partition-id");
    assert("last-partition-id"@.len() == 17);
    assert("last-partition-id"@[0] == 'l');
    reveal_strlit("sort-orders");
    assert("sort-orders"@.len() == 11);
    reveal_strlit("default-sort-order-id");
    assert("default-sort-order-id"@.len() == 21);
    reveal_strlit("snapshots");
    assert("snapshots"@.len() == 9);
    reveal_strlit("current-snapshot-id");
    assert("current-snapshot-id"@.len() == 19);
    reveal_strlit("properties");
    assert("properties"@.len() == 10);
    assert("properties"@[0] == 'p');
}

/// Builds the JSON object for a schema.
pub fn schema_value(schema: &IcebergSchema) -> (r: serde_json::Value)
    ensures
        json_tree(r) == schema_tree(schema@),
{
    let mut fields: Vec<serde_json::Value> = Vec::new();
    let mut i: usize = 0;
    while i < schema.fields.len()
        invariant
            i <= schema.fields.len(),
            fields@.len() == i,
            forall|k: int|
                0 <= k < i ==> json_tree(#[trigger] fields@[k]) == field_tree(schema.fields@[k]@),
        decreases schema.fields.len() - i,
    {
        fields.push(field_value(&schema.fields[i]));
        i = i + 1;
    }
    assert(json_trees(fields@) =~= schema_tree(schema@)->Object_0[2].1->Array_0);
    let mut members: Vec<(String, serde_json::Value)> = Vec::new();
    assert(json_members(members@) =~= Seq::empty());
    add_member(&mut members, "type", text_value(schema.type_val.as_str()));
    add_member(&mut members, "schema-id", json_int(schema.schema_id as i64));
    add_member(&mut members, "fields", json_array(fields));
    proof {
        schema_names_distinct();
    }
    assert(json_members(members@) =~= schema_tree(schema@)->Object_0);
    json_object(members)
}

/// Builds the JSON object for a partition field.
fn partition_field_value(field: &IcebergPartitionField) -> (r: serde_json::Value)
    ensures
        json_tree(r) == partition_field_tree(field@),
{
    let mut members: Vec<(String, serde_json::Value)> = Vec::new();
    assert(json_members(members@) =~= Seq::empty());
    add_member(&mut members, "name", text_value(field.name.as_str()));
    add_member(&mut members, "transform", text_value(field.transform.as_str()));
    add_member(&mut members, "source-id", json_int(field.source_id as i64));
    add_member(&mut members, "field-id", json_int(field.field_id as i64));
    proof {
        partition_field_names_distinct();
    }
    assert(json_members(members@) =~= partition_field_tree(field@)->Object_0);
    json_object(members)
}

/// Builds the JSON object for a partition spec.
fn partition_spec_value(partition_spec: &IcebergPartitionSpec) -> (r: serde_json::Value)
    ensures
        json_tree(r) == partition_spec_tree(partition_spec@),
{
    let mut fields: Vec<serde_json::Value> = Vec::new();
    let mut i: usize = 0;
    while i < partition_spec.fields.len()
        invariant
            i <= partition_spec.fields.len(),
            fields@.len() == i,
            forall|k: int|
                0 <= k < i ==> json_tree(#[trigger] fields@[k]) == partition_field_tree(
                    partition_spec.fields@[k]@,
                ),
        decreases partition_spec.fields.len() - i,
    {
        fields.push(partition_field_value(&partition_spec.fields[i]));
        i = i + 1;
    }
    assert(json_trees(fields@) =~= partition_spec_tree(partition_spec@)->Object_0[1].1->Array_0);
    let mut members: Vec<(String, serde_json::Value)> = Vec::new();
    assert(json_members(members@) =~= Seq::empty());
    add_member(&mut members, "spec-id", json_int(partition_spec.spec_id as i64));
    add_member(&mut members, "fields", json_array(fields));
    proof {
        list_names_distinct();
    }
    assert(json_members(members@) =~= partition_spec_tree(partition_spec@)->Object_0);
    json_object(members)
}

/// Builds the JSON object for a sort order.
fn sort_order_value(order: &IcebergSortOrder) -> (r: serde_json::Value)
    ensures
        json_tree(r) == sort_order_tree(order@),
{
    let mut fields: Vec<serde_json::Value> = Vec::new();
    let mut i: usize = 0;
    while i < order.fields.len()
        invariant
            i <= order.fields.len(),
            fields@.len() == i,
            forall|k: int|
                0 <= k < i ==> json_tree(#[trigger] fields@[k]) == json_tree(order.fields@[k]),
        decreases order.fields.len() - i,
    {
        fields.push(json_clone(&order.fields[i]));
        i = i + 1;
    }
    assert(json_trees(fields@) =~= order@.fields);
    let mut members: Vec<(String, serde_json::Value)> = Vec::new();
    assert(json_members(members@) =~= Seq::empty());
    add_member(&mut members, "order-id", json_int(order.order_id as i64));
    add_member(&mut members, "fields", json_array(fields));
    proof {
        list_names_distinct();
    }
    assert(json_members(members@) =~= sort_order_tree(order@)->Object_0);
    json_object(members)
}

/// Adds the member for an optional number.
fn add_optional_member(
    members: &mut Vec<(String, serde_json::Value)>,
    name: &str,
    number: Option<i64>,
)
    ensures
        json_members(final(members)@) == json_members(old(members)@) + optional_member(name@, number),
{
    match number {
        Some(n) => {
            let ghost before = json_members(members@);
            add_member(members, name, json_int(n));
            assert(json_members(members@) =~= before + optional_member(name@, number));
        },
        None => {
            assert(json_members(members@) =~= json_members(members@) + optional_member(
                name@,
                number,
            ));
        },
    }
}

/// Builds the JSON object for a snapshot.
fn snapshot_value(snapshot: &IcebergSnapshot) -> (r: serde_json::Value)
    ensures
        json_tree(r) == snapshot_tree(snapshot@),
{
    let mut members: Vec<(String, serde_json::Value)> = Vec::new();
    assert(json_members(members@) =~= Seq::empty());
    add_member(&mut members, "sequence-number", json_int(snapshot.sequence_number));
    add_member(&mut members, "snapshot-id", json_int(snapshot.snapshot_id));
    add_optional_member(&mut members, "parent-snapshot-id", snapshot.parent_snapshot_id);
    add_member(&mut members, "timestamp-ms", json_unsigned(snapshot.timestamp_ms));
    add_member(&mut members, "summary", snapshot.summary.to_value());
    add_member(&mut members, "manifest-list", text_value(snapshot.manifest_list.as_str()));
    add_member(&mut members, "schema-id", json_int(snapshot.schema_id as i64));
    add_optional_member(&mut members, "first-row-id", snapshot.first_row_id);
    add_optional_member(&mut members, "added-rows", snapshot.added_rows);
    proof {
        snapshot_names_distinct();
    }
    assert(json_members(members@) =~= snapshot_tree(snapshot@)->Object_0);
    assert(distinct_names(json_members(members@)));
    json_object(members)
}

/// Builds the JSON array for some schemas.
fn schema_values(items: &Vec<IcebergSchema>) -> (r: serde_json::Value)
    ensures
        json_tree(r) == Json::Array(Seq::new(items@.len(), |k: int| schema_tree(items@[k]@))),
{
    let mut values: Vec<serde_json::Value> = Vec::new();
    let mut i: usize = 0;
    while i < items.len()
        invariant
            i <= items.len(),
            values@.len() == i,
            forall|k: int|
                0 <= k < i ==> json_tree(#[trigger] values@[k]) == schema_tree(items@[k]@),
        decreases items.len() - i,
    {
        values.push(schema_value(&items[i]));
        i = i + 1;
    }
    assert(json_trees(values@) =~= Seq::new(items@.len(), |k: int| schema_tree(items@[k]@)));
    json_array(values)
}

/// Builds the JSON array for some partition specs.
fn partition_spec_values(items: &Vec<IcebergPartitionSpec>) -> (r: serde_json::Value)
    ensures
        json_tree(r) == Json::Array(Seq::new(items@.len(), |k: int| partition_spec_tree(items@[k]@))),
{
    let mut values: Vec<serde_json::Value> = Vec::new();
    let mut i: usize = 0;
    while i < items.len()
        invariant
            i <= items.len(),
            values@.len() == i,
            forall|k: int|
                0 <= k < i ==> json_tree(#[trigger] values@[k]) == partition_spec_tree(items@[k]@),
        decreases items.len() - i,
    {
        values.push(partition_spec_value(&items[i]));
        i = i + 1;
    }
    assert(json_trees(values@) =~= Seq::new(items@.len(), |k: int| partition_spec_tree(items@[k]@)));
    json_array(values)
}

/// Builds the JSON array for some sort orders.
fn sort_order_values(items: &Vec<IcebergSortOrder>) -> (r: serde_json::Value)
    ensures
        json_tree(r) == Json::Array(Seq::new(items@.len(), |k: int| sort_order_tree(items@[k]@))),
{
    let mut values: Vec<serde_json::Value> = Vec::new();
    let mut i: usize = 0;
    while i < items.len()
        invariant
            i <= items.len(),
            values@.len() == i,
            forall|k: int|
                0 <= k < i ==> json_tree(#[trigger] values@[k]) == sort_order_tree(items@[k]@),
        decreases items.len() - i,
    {
        values.push(sort_order_value(&items[i]));
        i = i + 1;
    }
    assert(json_trees(values@) =~= Seq::new(items@.len(), |k: int| sort_order_tree(items@[k]@)));
    json_array(values)
}

/// Builds the JSON array for some snapshots.
fn snapshot_values(items: &Vec<IcebergSnapshot>) -> (r: serde_json::Value)
    ensures
        json_tree(r) == Json::Array(Seq::new(items@.len(), |k: int| snapshot_tree(items@[k]@))),
{
    let mut values: Vec<serde_json::Value> = Vec::new();
    let mut i: usize = 0;
    while i < items.len()
        invariant
            i <= items.len(),
            values@.len() == i,
            forall|k: int|
                0 <= k < i ==> json_tree(#[trigger] values@[k]) == snapshot_tree(items@[k]@),
        decreases items.len() - i,
    {
        values.push(snapshot_value(&items[i]));
        i = i + 1;
    }
    assert(json_trees(values@) =~= Seq::new(items@.len(), |k: int| snapshot_tree(items@[k]@)));
    json_array(values)
}

/// Builds the `metadata.json` document.
pub fn metadata_value(metadata: &IcebergMetadata) -> (r: serde_json::Value)
    ensures
        json_tree(r) == metadata_tree(metadata@),
{
    let mut members: Vec<(String, serde_json::Value)> = Vec::new();
    assert(json_members(members@) =~= Seq::empty());
    add_member(&mut members, "format-version", json_int(metadata.format_version as i64));
    add_member(&mut members, "table-uuid", text_value(metadata.table_uuid.as_str()));
    add_member(&mut members, "location", text_value(metadata.location.as_str()));
    add_member(&mut members, "last-sequence-number", json_int(metadata.last_sequence_number));
    add_member(&mut members, "last-updated-ms", json_unsigned(metadata.last_updated_ms));
    add_member(&mut members, "last-column-id", json_int(metadata.last_column_id as i64));
    add_member(&mut members, "schemas", schema_values(&metadata.schemas));
    add_member(&mut members, "current-schema-id", json_int(metadata.current_schema_id as i64));
    add_member(&mut members, "partition-specs", partition_spec_values(&metadata.partition_specs));
    add_member(&mut members, "default-spec-id", json_int(metadata.default_spec_id as i64));
    add_member(&mut members, "last-partition-id", json_int(metadata.last_partition_id as i64));
    add_member(&mut members, "sort-orders", sort_order_values(&metadata.sort_orders));
    add_member(
        &mut members,
        "default-sort-order-id",
        json_int(metadata.default_sort_order_id as i64),
    );
    add_member(&mut members, "snapshots", snapshot_values(&metadata.snapshots));
    add_member(&mut members, "current-snapshot-id", json_int(metadata.current_snapshot_id));
    if metadata.properties.len() > 0 {
        add_member(&mut members, "properties", metadata.properties.to_value());
    }
    proof {
        metadata_names_distinct();
        let tree = metadata_tree(metadata@)->Object_0;
        let built = json_members(members@);
        assert(built[6].1->Array_0 =~= tree[6].1->Array_0);
        assert(built[8].1->Array_0 =~= tree[8].1->Array_0);
        assert(built[11].1->Array_0 =~= tree[11].1->Array_0);
        assert(built[13].1->Array_0 =~= tree[13].1->Array_0);
        assert(built =~= tree);
        assert(distinct_names(built));
    }
    json_object(members)
}

impl IcebergMetadata {
    /// Prints the document as indented JSON.
    pub fn to_json(&self) -> (r: Result<String, MetadataError>)
        ensures
            r is Ok,
            r->Ok_0@ == json_pretty(metadata_tree(self@)),
            is_readable(metadata_tree(self@), NESTING_LIMIT as nat) ==> json_parsed(r->Ok_0@)
                == Some(metadata_tree(self@)),
    {
        let value = metadata_value(self);
        match json_print(&value) {
            Ok(text) => Ok(text),
            Err(_) => Err(
                MetadataError::DataInvalid {
                    message: "failed to serialize IcebergMetadata to JSON".to_owned(),
                },
            ),
        }
    }
}

/// A column can be read back from its object.
pub proof fn field_tree_is_lossless(a: IcebergDataFieldView, b: IcebergDataFieldView)
    requires
        field_tree(a) == field_tree(b),
    ensures
        a == b,
{
    let x = field_tree(a)->Object_0;
    let y = field_tree(b)->Object_0;
    assert(x[0].1 == y[0].1 && x[1].1 == y[1].1 && x[2].1 == y[2].1 && x[3].1 == y[3].1);
    assert(x.len() == y.len());
    if a.doc is Some {
        assert(x[4].1 == y[4].1);
    }
}

/// A schema can be read back from its object.
pub proof fn schema_tree_is_lossless(a: IcebergSchemaView, b: IcebergSchemaView)
    requires
        schema_tree(a) == schema_tree(b),
    ensures
        a == b,
{
    let x = schema_tree(a)->Object_0;
    let y = schema_tree(b)->Object_0;
    assert(x[0].1 == y[0].1 && x[1].1 == y[1].1 && x[2].1 == y[2].1);
    let f = x[2].1->Array_0;
    let g = y[2].1->Array_0;
    assert(f.len() == g.len());
    assert forall|i: int| 0 <= i < a.fields.len() implies a.fields[i] == b.fields[i] by {
        assert(f[i] == g[i]);
        field_tree_is_lossless(a.fields[i], b.fields[i]);
    }
    assert(a.fields =~= b.fields);
}

/// A partition field can be read back from its object.
pub proof fn partition_field_tree_is_lossless(
    a: IcebergPartitionFieldView,
    b: IcebergPartitionFieldView,
)
    requires
        partition_field_tree(a) == partition_field_tree(b),
    ensures
        a == b,
{
    let x = partition_field_tree(a)->Object_0;
    let y = partition_field_tree(b)->Object_0;
    assert(x[0].1 == y[0].1 && x[1].1 == y[1].1 && x[2].1 == y[2].1 && x[3].1 == y[3].1);
}

/// A partition spec can be read back from its object.
pub proof fn partition_spec_tree_is_lossless(
    a: IcebergPartitionSpecView,
    b: IcebergPartitionSpecView,
)
    requires
        partition_spec_tree(a) == partition_spec_tree(b),
    ensures
        a == b,
{
    let x = partition_spec_tree(a)->Object_0;
    let y = partition_spec_tree(b)->Object_0;
    assert(x[0].1 == y[0].1 && x[1].1 == y[1].1);
    let f = x[1].1->Array_0;
    let g = y[1].1->Array_0;
    assert(f.len() == g.len());
    assert forall|i: int| 0 <= i < a.fields.len() implies a.fields[i] == b.fields[i] by {
        assert(f[i] == g[i]);
        partition_field_tree_is_lossless(a.fields[i], b.fields[i]);
    }
    assert(a.fields =~= b.fields);
}

/// A sort order can be read back from its object.
pub proof fn sort_order_tree_is_lossless(a: IcebergSortOrderView, b: IcebergSortOrderView)
    requires
        sort_order_tree(a) == sort_order_tree(b),
    ensures
        a == b,
{
    let x = sort_order_tree(a)->Object_0;
    let y = sort_order_tree(b)->Object_0;
    assert(x[0].1 == y[0].1 && x[1].1 == y[1].1);
}

/// A map from text to text can be read back from its object.
pub proof fn map_tree_is_lossless(
    a: Seq<(Seq<char>, Seq<char>)>,
    b: Seq<(Seq<char>, Seq<char>)>,
)
    requires
        map_tree(a) == map_tree(b),
    ensures
        a == b,
{
    let x = map_tree(a)->Object_0;
    let y = map_tree(b)->Object_0;
    assert(x.len() == y.len());
    assert forall|i: int| 0 <= i < a.len() implies a[i] == b[i] by {
        assert(x[i] == y[i]);
    }
    assert(a =~= b);
}

/// A snapshot can be read back from its object.
pub proof fn snapshot_tree_is_lossless(a: IcebergSnapshotView, b: IcebergSnapshotView)
    requires
        snapshot_tree(a) == snapshot_tree(b),
    ensures
        a == b,
{
    snapshot_names_distinct();
    let x = snapshot_tree(a)->Object_0;
    let y = snapshot_tree(b)->Object_0;
    assert(x[0].1 == y[0].1 && x[1].1 == y[1].1);
    assert(x[2] == y[2]);
    assert((a.parent_snapshot_id is Some) == (b.parent_snapshot_id is Some));
    let p: int = if a.parent_snapshot_id is Some { 3 } else { 2 };
    assert(x[p].1 == y[p].1 && x[p + 1].1 == y[p + 1].1);
    assert(x[p + 2].1 == y[p + 2].1 && x[p + 3].1 == y[p + 3].1);
    map_tree_is_lossless(a.summary, b.summary);
    assert(x.len() == y.len());
    if x.len() > p + 4 {
        assert(x[p + 4] == y[p + 4]);
    }
    assert((a.first_row_id is Some) == (b.first_row_id is Some));
    if x.len() > p + 5 {
        assert(x[p + 5] == y[p + 5]);
    }
}

/// The document says everything that the metadata holds: metadata with the
/// same document is the same.
pub proof fn document_is_lossless(a: IcebergMetadataView, b: IcebergMetadataView)
    requires
        metadata_tree(a) == metadata_tree(b),
    ensures
        a == b,
{
    let x = metadata_tree(a)->Object_0;
    let y = metadata_tree(b)->Object_0;
    assert(x.len() == y.len());
    assert(x[0].1 == y[0].1 && x[1].1 == y[1].1 && x[2].1 == y[2].1 && x[3].1 == y[3].1);
    assert(x[4].1 == y[4].1 && x[5].1 == y[5].1 && x[6].1 == y[6].1 && x[7].1 == y[7].1);
    assert(x[8].1 == y[8].1 && x[9].1 == y[9].1 && x[10].1 == y[10].1 && x[11].1 == y[11].1);
    assert(x[12].1 == y[12].1 && x[13].1 == y[13].1 && x[14].1 == y[14].1);
    assert(x[6].1->Array_0.len() == y[6].1->Array_0.len());
    assert forall|i: int| 0 <= i < a.schemas.len() implies a.schemas[i] == b.schemas[i] by {
        assert(x[6].1->Array_0[i] == y[6].1->Array_0[i]);
        schema_tree_is_lossless(a.schemas[i], b.schemas[i]);
    }
    assert(a.schemas =~= b.schemas);
    assert(x[8].1->Array_0.len() == y[8].1->Array_0.len());
    assert forall|i: int| 0 <= i < a.partition_specs.len() implies a.partition_specs[i]
        == b.partition_specs[i] by {
        assert(x[8].1->Array_0[i] == y[8].1->Array_0[i]);
        partition_spec_tree_is_lossless(a.partition_specs[i], b.partition_specs[i]);
    }
    assert(a.partition_specs =~= b.partition_specs);
    assert(x[11].1->Array_0.len() == y[11].1->Array_0.len());
    assert forall|i: int| 0 <= i < a.sort_orders.len() implies a.sort_orders[i]
        == b.sort_orders[i] by {
        assert(x[11].1->Array_0[i] == y[11].1->Array_0[i]);
        sort_order_tree_is_lossless(a.sort_orders[i], b.sort_orders[i]);
    }
    assert(a.sort_orders =~= b.sort_orders);
    assert(x[13].1->Array_0.len() == y[13].1->Array_0.len());
    assert forall|i: int| 0 <= i < a.snapshots.len() implies a.snapshots[i] == b.snapshots[i] by {
        assert(x[13].1->Array_0[i] == y[13].1->Array_0[i]);
        snapshot_tree_is_lossless(a.snapshots[i], b.snapshots[i]);
    }
    assert(a.snapshots =~= b.snapshots);
    if a.properties.len() > 0 {
        assert(x[15].1 == y[15].1);
        map_tree_is_lossless(a.properties, b.properties);
    } else {
        assert(a.properties =~= b.properties);
    }
}

/// Whether the printed document of some metadata is read back, where it can be
/// read.
pub open spec fn is_read_back(metadata: IcebergMetadataView) -> bool {
    is_readable(metadata_tree(metadata), NESTING_LIMIT as nat) ==> json_parsed(
        json_pretty(metadata_tree(metadata)),
    ) == Some(metadata_tree(metadata))
}

/// Whether the types of the columns of a schema are not nested too deeply for
/// a document with the schema to be read.
pub open spec fn has_readable_columns(schema: IcebergSchemaView) -> bool {
    forall|i: int|
        0 <= i < schema.fields.len() ==> is_readable(
            (#[trigger] schema.fields[i]).type_val,
            (NESTING_LIMIT - 5) as nat,
        )
}

/// A schema with readable columns stands in a readable object.
proof fn schema_tree_is_readable(schema: IcebergSchemaView)
    requires
        has_readable_columns(schema),
    ensures
        is_readable(schema_tree(schema), (NESTING_LIMIT - 2) as nat),
{
    reveal_with_fuel(is_readable, 3);
    let fields = schema_tree(schema)->Object_0[2].1->Array_0;
    assert forall|i: int| 0 <= i < fields.len() implies is_readable(
        #[trigger] fields[i],
        (NESTING_LIMIT - 4) as nat,
    ) by {
        assert(is_readable(schema.fields[i].type_val, (NESTING_LIMIT - 5) as nat));
        assert(fields[i] == field_tree(schema.fields[i]));
    }
    assert(is_readable(Json::Array(fields), (NESTING_LIMIT - 3) as nat));
}

/// A partition spec stands in a readable object.
proof fn partition_spec_tree_is_readable(spec_: IcebergPartitionSpecView)
    ensures
        is_readable(partition_spec_tree(spec_), (NESTING_LIMIT - 2) as nat),
{
    reveal_with_fuel(is_readable, 3);
    let fields = partition_spec_tree(spec_)->Object_0[1].1->Array_0;
    assert forall|i: int| 0 <= i < fields.len() implies is_readable(
        #[trigger] fields[i],
        (NESTING_LIMIT - 4) as nat,
    ) by {
        assert(fields[i] == partition_field_tree(spec_.fields[i]));
    }
    assert(is_readable(Json::Array(fields), (NESTING_LIMIT - 3) as nat));
}

/// A snapshot stands in a readable object.
proof fn snapshot_tree_is_readable(snapshot: IcebergSnapshotView)
    ensures
        is_readable(snapshot_tree(snapshot), (NESTING_LIMIT - 2) as nat),
{
    reveal_with_fuel(is_readable, 3);
    assert(is_readable(map_tree(snapshot.summary), (NESTING_LIMIT - 3) as nat));
}

/// A document can be read where the types of its columns, and the fields of its
/// sort orders, are not nested too deeply.
pub proof fn documents_are_readable(metadata: IcebergMetadataView)
    requires
        forall|i: int|
            0 <= i < metadata.schemas.len() ==> has_readable_columns(
                #[trigger] metadata.schemas[i],
            ),
        forall|i: int|
            0 <= i < metadata.sort_orders.len() ==> is_readable(
                sort_order_tree(#[trigger] metadata.sort_orders[i]),
                (NESTING_LIMIT - 2) as nat,
            ),
    ensures
        is_readable(metadata_tree(metadata), NESTING_LIMIT as nat),
{
    reveal_with_fuel(is_readable, 3);
    let members = metadata_tree(metadata)->Object_0;
    let schemas = members[6].1->Array_0;
    assert forall|i: int| 0 <= i < schemas.len() implies is_readable(
        #[trigger] schemas[i],
        (NESTING_LIMIT - 2) as nat,
    ) by {
        schema_tree_is_readable(metadata.schemas[i]);
    }
    assert(is_readable(members[6].1, (NESTING_LIMIT - 1) as nat));
    let specs = members[8].1->Array_0;
    assert forall|i: int| 0 <= i < specs.len() implies is_readable(
        #[trigger] specs[i],
        (NESTING_LIMIT - 2) as nat,
    ) by {
        partition_spec_tree_is_readable(metadata.partition_specs[i]);
    }
    assert(is_readable(members[8].1, (NESTING_LIMIT - 1) as nat));
    let orders = members[11].1->Array_0;
    assert forall|i: int| 0 <= i < orders.len() implies is_readable(
        #[trigger] orders[i],
        (NESTING_LIMIT - 2) as nat,
    ) by {
        assert(orders[i] == sort_order_tree(metadata.sort_orders[i]));
    }
    assert(is_readable(members[11].1, (NESTING_LIMIT - 1) as nat));
    let snapshots = members[13].1->Array_0;
    assert forall|i: int| 0 <= i < snapshots.len() implies is_readable(
        #[trigger] snapshots[i],
        (NESTING_LIMIT - 2) as nat,
    ) by {
        snapshot_tree_is_readable(metadata.snapshots[i]);
    }
    assert(is_readable(members[13].1, (NESTING_LIMIT - 1) as nat));
    assert(is_readable(map_tree(metadata.properties), (NESTING_LIMIT - 1) as nat));
    assert forall|i: int| 0 <= i < members.len() implies is_readable(
        (#[trigger] members[i]).1,
        (NESTING_LIMIT - 1) as nat,
    ) by {}
}

/// A printed document says everything that the metadata holds: metadata whose
/// documents are read from one text is the same.
pub proof fn documents_are_read_back(
    text: Seq<char>,
    a: IcebergMetadataView,
    b: IcebergMetadataView,
)
    requires
        json_parsed(text) == Some(metadata_tree(a)),
        json_parsed(text) == Some(metadata_tree(b)),
    ensures
        a == b,
{
    document_is_lossless(a, b);
}

} // verus!
