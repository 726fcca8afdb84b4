//! What the JSON form of a metadata document says.
use vstd::prelude::*;

use crate::document::{
    metadata_tree, optional_member, partition_field_tree, partition_spec_tree, schema_tree,
    snapshot_tree, sort_order_tree,
};
use crate::json::Json;
use crate::laws::types::has_member;
use crate::metadata::{
    IcebergDataFieldView, IcebergMetadataView, IcebergPartitionFieldView,
    IcebergPartitionSpecView, IcebergSchemaView, IcebergSnapshotView, IcebergSortOrderView,
};
use crate::string_map::map_tree;
use crate::types::field_tree;

verus! {

/// The object of a column says its id, name, nullability, type and, where it has
/// one, its documentation.
pub proof fn a_column_says_what_it_holds(field: IcebergDataFieldView)
    ensures
        ({
            let tree = field_tree(field);
            &&& has_member(tree, "id"@, Json::Int(field.id as int))
            &&& has_member(tree, "name"@, Json::Text(field.name))
            &&& has_member(tree, "required"@, Json::Bool(field.required))
            &&& has_member(tree, "type"@, field.type_val)
            &&& match field.doc {
                Some(doc) => has_member(tree, "doc"@, Json::Text(doc)) && tree->Object_0.len() == 5,
                None => tree->Object_0.len() == 4,
            }
        }),
{
    let members = field_tree(field)->Object_0;
    assert(members[0] == ("id"@, Json::Int(field.id as int)));
    assert(members[1] == ("name"@, Json::Text(field.name)));
    assert(members[2] == ("required"@, Json::Bool(field.required)));
    assert(members[3] == ("type"@, field.type_val));
    if field.doc is Some {
        assert(members[4] == ("doc"@, Json::Text(field.doc->0)));
    }
}

/// The object of a schema says its type, its id and its columns, in order.
pub proof fn a_schema_says_what_it_holds(schema: IcebergSchemaView)
    ensures
        ({
            let tree = schema_tree(schema);
            &&& has_member(tree, "type"@, Json::Text(schema.type_val))
            &&& has_member(tree, "schema-id"@, Json::Int(schema.schema_id as int))
            &&& tree->Object_0.len() == 3
            &&& exists|columns: Seq<Json>|
                {
                    &&& #[trigger] has_member(tree, "fields"@, Json::Array(columns))
                    &&& columns.len() == schema.fields.len()
                    &&& forall|i: int|
                        0 <= i < columns.len() ==> #[trigger] columns[i] == field_tree(
                            schema.fields[i],
                        )
                }
        }),
{
    let tree = schema_tree(schema);
    let members = tree->Object_0;
    assert(members[0] == ("type"@, Json::Text(schema.type_val)));
    assert(members[1] == ("schema-id"@, Json::Int(schema.schema_id as int)));
    let columns = members[2].1->Array_0;
    assert(members[2] == ("fields"@, Json::Array(columns)));
    assert(has_member(tree, "fields"@, Json::Array(columns)));
}

/// The object of a partition field says its name, its transform and the ids of
/// its source and of itself.
pub proof fn a_partition_field_says_what_it_holds(field: IcebergPartitionFieldView)
    ensures
        ({
            let tree = partition_field_tree(field);
            &&& has_member(tree, "name"@, Json::Text(field.name))
            &&& has_member(tree, "transform"@, Json::Text(field.transform))
            &&& has_member(tree, "source-id"@, Json::Int(field.source_id as int))
            &&& has_member(tree, "field-id"@, Json::Int(field.field_id as int))
            &&& tree->Object_0.len() == 4
        }),
{
    let members = partition_field_tree(field)->Object_0;
    assert(members[0] == ("name"@, Json::Text(field.name)));
    assert(members[1] == ("transform"@, Json::Text(field.transform)));
    assert(members[2] == ("source-id"@, Json::Int(field.source_id as int)));
    assert(members[3] == ("field-id"@, Json::Int(field.field_id as int)));
}

/// The object of a partition spec says its id and its fields, in order.
pub proof fn a_partition_spec_says_what_it_holds(spec_: IcebergPartitionSpecView)
    ensures
        ({
            let tree = partition_spec_tree(spec_);
            &&& has_member(tree, "spec-id"@, Json::Int(spec_.spec_id as int))
            &&& tree->Object_0.len() == 2
            &&& exists|fields: Seq<Json>|
                {
                    &&& #[trigger] has_member(tree, "fields"@, Json::Array(fields))
                    &&& fields.len() == spec_.fields.len()
                    &&& forall|i: int|
                        0 <= i < fields.len() ==> #[trigger] fields[i] == partition_field_tree(
                            spec_.fields[i],
                        )
                }
        }),
{
    let tree = partition_spec_tree(spec_);
    let members = tree->Object_0;
    assert(members[0] == ("spec-id"@, Json::Int(spec_.spec_id as int)));
    let fields = members[1].1->Array_0;
    assert(members[1] == ("fields"@, Json::Array(fields)));
    assert(has_member(tree, "fields"@, Json::Array(fields)));
}

/// The object of a sort order says its id and its fields.
pub proof fn a_sort_order_says_what_it_holds(order: IcebergSortOrderView)
    ensures
        ({
            let tree = sort_order_tree(order);
            &&& has_member(tree, "order-id"@, Json::Int(order.order_id as int))
            &&& has_member(tree, "fields"@, Json::Array(order.fields))
            &&& tree->Object_0.len() == 2
        }),
{
    let members = sort_order_tree(order)->Object_0;
    assert(members[0] == ("order-id"@, Json::Int(order.order_id as int)));
    assert(members[1] == ("fields"@, Json::Array(order.fields)));
}

/// An object of texts has one member for each pair, in the order of the pairs.
pub proof fn pairs_become_members(pairs: Seq<(Seq<char>, Seq<char>)>)
    ensures
        map_tree(pairs) is Object,
        map_tree(pairs)->Object_0.len() == pairs.len(),
        forall|i: int|
            0 <= i < pairs.len() ==> #[trigger] map_tree(pairs)->Object_0[i] == (
                pairs[i].0,
                Json::Text(pairs[i].1),
            ),
{
}

/// The object of a snapshot says its numbers, its time, its summary and its
/// manifest list. A number that it does not have it does not say.
pub proof fn a_snapshot_says_what_it_holds(snapshot: IcebergSnapshotView)
    ensures
        ({
            let tree = snapshot_tree(snapshot);
            &&& has_member(tree, "sequence-number"@, Json::Int(snapshot.sequence_number as int))
            &&& has_member(tree, "snapshot-id"@, Json::Int(snapshot.snapshot_id as int))
            &&& has_member(tree, "timestamp-ms"@, Json::Int(snapshot.timestamp_ms as int))
            &&& has_member(tree, "summary"@, map_tree(snapshot.summary))
            &&& has_member(tree, "manifest-list"@, Json::Text(snapshot.manifest_list))
            &&& has_member(tree, "schema-id"@, Json::Int(snapshot.schema_id as int))
            &&& snapshot.parent_snapshot_id is Some ==> has_member(
                tree,
                "parent-snapshot-id"@,
                Json::Int(snapshot.parent_snapshot_id->0 as int),
            )
            &&& snapshot.first_row_id is Some ==> has_member(
                tree,
                "first-row-id"@,
                Json::Int(snapshot.first_row_id->0 as int),
            )
            &&& snapshot.added_rows is Some ==> has_member(
                tree,
                "added-rows"@,
                Json::Int(snapshot.added_rows->0 as int),
            )
            &&& tree->Object_0.len() == 6 + (if snapshot.parent_snapshot_id is Some {
                1int
            } else {
                0
            }) + (if snapshot.first_row_id is Some {
                1int
            } else {
                0
            }) + (if snapshot.added_rows is Some {
                1int
            } else {
                0
            })
        }),
{
    let members = snapshot_tree(snapshot)->Object_0;
    let parent = optional_member("parent-snapshot-id"@, snapshot.parent_snapshot_id);
    let first = optional_member("first-row-id"@, snapshot.first_row_id);
    let p: int = parent.len() as int;
    let f: int = first.len() as int;
    assert(members[0] == ("sequence-number"@, Json::Int(snapshot.sequence_number as int)));
    assert(members[1] == ("snapshot-id"@, Json::Int(snapshot.snapshot_id as int)));
    if snapshot.parent_snapshot_id is Some {
        assert(members[2] == (
            "parent-snapshot-id"@,
            Json::Int(snapshot.parent_snapshot_id->0 as int),
        ));
    }
    assert(members[2 + p] == ("timestamp-ms"@, Json::Int(snapshot.timestamp_ms as int)));
    assert(members[3 + p] == ("summary"@, map_tree(snapshot.summary)));
    assert(members[4 + p] == ("manifest-list"@, Json::Text(snapshot.manifest_list)));
    assert(members[5 + p] == ("schema-id"@, Json::Int(snapshot.schema_id as int)));
    if snapshot.first_row_id is Some {
        assert(members[6 + p] == ("first-row-id"@, Json::Int(snapshot.first_row_id->0 as int)));
    }
    if snapshot.added_rows is Some {
        assert(members[6 + p + f] == ("added-rows"@, Json::Int(snapshot.added_rows->0 as int)));
    }
}

/// Whether an object has a member of the given name that is an array with the
/// given items.
pub open spec fn has_items(tree: Json, name: Seq<char>, items: Seq<Json>) -> bool {
    has_member(tree, name, Json::Array(items))
}

/// The document says every number and text that it holds under the name that
/// the table format gives it, and lists its schemas, partition specs, sort
/// orders and snapshots in order. Without properties it does not name them.
pub proof fn a_document_says_what_it_holds(metadata: IcebergMetadataView)
    ensures
        ({
            let tree = metadata_tree(metadata);
            &&& has_member(tree, "format-version"@, Json::Int(metadata.format_version as int))
            &&& has_member(tree, "table-uuid"@, Json::Text(metadata.table_uuid))
            &&& has_member(tree, "location"@, Json::Text(metadata.location))
            &&& has_member(
                tree,
                "last-sequence-number"@,
                Json::Int(metadata.last_sequence_number as int),
            )
            &&& has_member(tree, "last-updated-ms"@, Json::Int(metadata.last_updated_ms as int))
            &&& has_member(tree, "last-column-id"@, Json::Int(metadata.last_column_id as int))
            &&& has_member(
                tree,
                "current-schema-id"@,
                Json::Int(metadata.current_schema_id as int),
            )
            &&& has_member(tree, "default-spec-id"@, Json::Int(metadata.default_spec_id as int))
            &&& has_member(
                tree,
                "last-partition-id"@,
                Json::Int(metadata.last_partition_id as int),
            )
            &&& has_member(
                tree,
                "default-sort-order-id"@,
                Json::Int(metadata.default_sort_order_id as int),
            )
            &&& has_member(
                tree,
                "current-snapshot-id"@,
                Json::Int(metadata.current_snapshot_id as int),
            )
            &&& metadata.properties.len() > 0 ==> has_member(
                tree,
                "properties"@,
                map_tree(metadata.properties),
            )
            &&& tree->Object_0.len() == if metadata.properties.len() > 0 {
                16int
            } else {
                15
            }
        }),
{
    let members = metadata_tree(metadata)->Object_0;
    assert(members[0] == ("format-version"@, Json::Int(metadata.format_version as int)));
    assert(members[1] == ("table-uuid"@, Json::Text(metadata.table_uuid)));
    assert(members[2] == ("location"@, Json::Text(metadata.location)));
    assert(members[3] == (
        "last-sequence-number"@,
        Json::Int(metadata.last_sequence_number as int),
    ));
    assert(members[4] == ("last-updated-ms"@, Json::Int(metadata.last_updated_ms as int)));
    assert(members[5] == ("last-column-id"@, Json::Int(metadata.last_column_id as int)));
    assert(members[7] == ("current-schema-id"@, Json::Int(metadata.current_schema_id as int)));
    assert(members[9] == ("default-spec-id"@, Json::Int(metadata.default_spec_id as int)));
    assert(members[10] == ("last-partition-id"@, Json::Int(metadata.last_partition_id as int)));
    assert(members[12] == (
        "default-sort-order-id"@,
        Json::Int(metadata.default_sort_order_id as int),
    ));
    assert(members[14] == (
        "current-snapshot-id"@,
        Json::Int(metadata.current_snapshot_id as int),
    ));
    if metadata.properties.len() > 0 {
        assert(members[15] == ("properties"@, map_tree(metadata.properties)));
    }
}

/// The document lists its schemas, partition specs, sort orders and snapshots,
/// each one by one and in order.
pub proof fn a_document_lists_what_it_holds(metadata: IcebergMetadataView)
    ensures
        exists|schemas: Seq<Json>|
            {
                &&& #[trigger] has_items(metadata_tree(metadata), "schemas"@, schemas)
                &&& schemas.len() == metadata.schemas.len()
                &&& forall|i: int|
                    0 <= i < schemas.len() ==> #[trigger] schemas[i] == schema_tree(
                        metadata.schemas[i],
                    )
            },
        exists|specs: Seq<Json>|
            {
                &&& #[trigger] has_items(metadata_tree(metadata), "partition-specs"@, specs)
                &&& specs.len() == metadata.partition_specs.len()
                &&& forall|i: int|
                    0 <= i < specs.len() ==> #[trigger] specs[i] == partition_spec_tree(
                        metadata.partition_specs[i],
                    )
            },
        exists|orders: Seq<Json>|
            {
                &&& #[trigger] has_items(metadata_tree(metadata), "sort-orders"@, orders)
                &&& orders.len() == metadata.sort_orders.len()
                &&& forall|i: int|
                    0 <= i < orders.len() ==> #[trigger] orders[i] == sort_order_tree(
                        metadata.sort_orders[i],
                    )
            },
        exists|snapshots: Seq<Json>|
            {
                &&& #[trigger] has_items(metadata_tree(metadata), "snapshots"@, snapshots)
                &&& snapshots.len() == metadata.snapshots.len()
                &&& forall|i: int|
                    0 <= i < snapshots.len() ==> #[trigger] snapshots[i] == snapshot_tree(
                        metadata.snapshots[i],
                    )
            },
{
    let tree = metadata_tree(metadata);
    let members = tree->Object_0;
    let schemas = members[6].1->Array_0;
    assert(members[6] == ("schemas"@, Json::Array(schemas)));
    assert(has_items(tree, "schemas"@, schemas));
    let specs = members[8].1->Array_0;
    assert(members[8] == ("partition-specs"@, Json::Array(specs)));
    assert(has_items(tree, "partition-specs"@, specs));
    let orders = members[11].1->Array_0;
    assert(members[11] == ("sort-orders"@, Json::Array(orders)));
    assert(has_items(tree, "sort-orders"@, orders));
    let snapshots = members[13].1->Array_0;
    assert(members[13] == ("snapshots"@, Json::Array(snapshots)));
    assert(has_items(tree, "snapshots"@, snapshots));
}

} // verus!
