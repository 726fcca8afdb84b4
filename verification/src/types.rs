//! Iceberg type representations of Paimon column types.
//!
//! Primitive types become JSON strings; lists, maps and structs become JSON
//! objects that carry the ids of their parts.
use vstd::prelude::*;

use crate::json::{
    add_member, is_readable, json_array, json_bool, json_clone, json_int, json_members, json_object,
    json_string, json_tree, json_trees, text_value, Json,
};
use crate::metadata::{IcebergDataField, IcebergDataFieldView};
use crate::table::{copy_text, text_of, DataField, DataType, TypeRoot};
use crate::text::{int_text, u64_text};

verus! {

/// The id of an array's element: ten times the id of the column, plus the
/// depth of the array within it.
pub open spec fn element_id(field_id: i32, depth: int) -> int {
    field_id * 10 + (depth as i32)
}

/// The id of a map's key: two ids are set aside for each depth, and the key
/// has the lower one.
pub open spec fn map_key_id(field_id: i32, depth: int) -> int {
    field_id * 10 + (depth as i32) * 2 - 1
}

/// The id of a map's value.
pub open spec fn map_value_id(field_id: i32, depth: int) -> int {
    field_id * 10 + (depth as i32) * 2
}

/// Whether a number fits in 32 bits.
pub open spec fn fits(n: int) -> bool {
    i32::MIN <= n <= i32::MAX
}

/// Whether the id of an array's element can be computed in 32 bits.
pub open spec fn element_id_fits(field_id: i32, depth: int) -> bool {
    fits(field_id * 10) && fits(element_id(field_id, depth))
}

/// Whether the ids of a map's key and value can be computed in 32 bits.
pub open spec fn map_ids_fit(field_id: i32, depth: int) -> bool {
    &&& fits(field_id * 10)
    &&& fits((depth as i32) * 2)
    &&& fits(map_key_id(field_id, depth))
    &&& fits(map_value_id(field_id, depth))
}

/// The JSON object for an Iceberg column. A column without documentation has
/// no `doc` member.
pub open spec fn field_tree(field: IcebergDataFieldView) -> Json {
    let members = seq![
        ("id"@, Json::Int(field.id as int)),
        ("name"@, Json::Text(field.name)),
        ("required"@, Json::Bool(field.required)),
        ("type"@, field.type_val),
    ];
    match field.doc {
        Some(doc) => Json::Object(members.push(("doc"@, Json::Text(doc)))),
        None => Json::Object(members),
    }
}

/// The Iceberg column for a Paimon column.
pub open spec fn iceberg_field(field: DataField) -> IcebergDataFieldView
    decreases field,
{
    IcebergDataFieldView {
        id: field.id,
        name: field.name@,
        required: !field.data_type.nullable,
        type_val: iceberg_type(field.data_type, field.id, 0),
        doc: text_of(field.description),
    }
}

/// The JSON objects for the fields of a row type.
pub open spec fn row_trees(fields: Seq<DataField>) -> Seq<Json>
    decreases fields,
{
    Seq::new(
        fields.len(),
        |i: int|
            if 0 <= i < fields.len() {
                field_tree(iceberg_field(fields[i]))
            } else {
                Json::Null
            },
    )
}

/// The Iceberg representation of a Paimon type that stands `depth` levels
/// inside the column with the id `field_id`.
pub open spec fn iceberg_type(dt: DataType, field_id: i32, depth: int) -> Json
    decreases dt,
{
    match dt.root {
        TypeRoot::Boolean => Json::Text("boolean"@),
        TypeRoot::TinyInt => Json::Text("int"@),
        TypeRoot::SmallInt => Json::Text("int"@),
        TypeRoot::Int => Json::Text("int"@),
        TypeRoot::BigInt => Json::Text("long"@),
        TypeRoot::Float => Json::Text("float"@),
        TypeRoot::Double => Json::Text("double"@),
        TypeRoot::Date => Json::Text("date"@),
        TypeRoot::Char => Json::Text("string"@),
        TypeRoot::VarChar => Json::Text("string"@),
        TypeRoot::Binary => Json::Text("binary"@),
        TypeRoot::VarBinary => Json::Text("binary"@),
        TypeRoot::Blob => Json::Text("binary"@),
        TypeRoot::Decimal { precision, scale } => Json::Text(
            "decimal("@ + int_text(precision as int) + ", "@ + int_text(scale as int) + ")"@,
        ),
        TypeRoot::Timestamp { precision } => if precision >= 7 {
            Json::Text("timestamp_ns"@)
        } else {
            Json::Text("timestamp"@)
        },
        TypeRoot::LocalZonedTimestamp { precision } => if precision >= 7 {
            Json::Text("timestamptz_ns"@)
        } else {
            Json::Text("timestamptz"@)
        },
        TypeRoot::ArrayOf(element) => Json::Object(
            seq![
                ("type"@, Json::Text("list"@)),
                ("element-id"@, Json::Int(element_id(field_id, depth + 1))),
                ("element-required"@, Json::Bool(!element.nullable)),
                ("element"@, iceberg_type(*element, field_id, depth + 1)),
            ],
        ),
        TypeRoot::MapOf(key, value) => Json::Object(
            seq![
                ("type"@, Json::Text("map"@)),
                ("key-id"@, Json::Int(map_key_id(field_id, depth + 1))),
                ("key"@, iceberg_type(*key, field_id, depth + 1)),
                ("value-id"@, Json::Int(map_value_id(field_id, depth + 1))),
                ("value-required"@, Json::Bool(!value.nullable)),
                ("value"@, iceberg_type(*value, field_id, depth + 1)),
            ],
        ),
        TypeRoot::Row(fields) => Json::Object(
            seq![("type"@, Json::Text("struct"@)), ("fields"@, Json::Array(row_trees(fields@)))],
        ),
        TypeRoot::Time => Json::Text("binary"@),
        TypeRoot::MultisetOf(_) => Json::Text("binary"@),
        TypeRoot::VectorOf(_) => Json::Text("binary"@),
    }
}

/// Whether every id inside the type can be computed in 32 bits.
pub open spec fn type_fits(dt: DataType, field_id: i32, depth: int) -> bool
    decreases dt,
{
    match dt.root {
        TypeRoot::ArrayOf(element) => {
            &&& depth < usize::MAX
            &&& element_id_fits(field_id, depth + 1)
            &&& type_fits(*element, field_id, depth + 1)
        },
        TypeRoot::MapOf(key, value) => {
            &&& depth < usize::MAX
            &&& map_ids_fit(field_id, depth + 1)
            &&& type_fits(*key, field_id, depth + 1)
            &&& type_fits(*value, field_id, depth + 1)
        },
        TypeRoot::Row(fields) => row_fits(fields@),
        _ => true,
    }
}

/// Whether every id inside the columns can be computed in 32 bits.
pub open spec fn row_fits(fields: Seq<DataField>) -> bool
    decreases fields,
{
    forall|i: int|
        0 <= i < fields.len() ==> type_fits((#[trigger] fields[i]).data_type, fields[i].id, 0)
}

/// The id of an array's element.
pub fn element_field_id(field_id: i32, depth: usize) -> (r: i32)
    requires
        element_id_fits(field_id, depth as int),
    ensures
        r == element_id(field_id, depth as int),
{
    field_id * 10 + depth as i32
}

/// The id of a map's key.
pub fn map_key_field_id(field_id: i32, depth: usize) -> (r: i32)
    requires
        map_ids_fit(field_id, depth as int),
    ensures
        r == map_key_id(field_id, depth as int),
{
    field_id * 10 + depth as i32 * 2 - 1
}

/// The id of a map's value.
pub fn map_value_field_id(field_id: i32, depth: usize) -> (r: i32)
    requires
        map_ids_fit(field_id, depth as int),
    ensures
        r == map_value_id(field_id, depth as int),
{
    field_id * 10 + depth as i32 * 2
}

/// The names in a column's object are distinct.
proof fn column_names_distinct()
    ensures
        "id"@ != "name"@,
        "id"@ != "required"@,
        "id"@ != "type"@,
        "id"@ != "doc"@,
        "name"@ != "required"@,
        "name"@ != "type"@,
        "name"@ != "doc"@,
        "required"@ != "type"@,
        "required"@ != "doc"@,
        "type"@ != "doc"@,
{
    reveal_strlit("id");
    assert("id"@.len() == 2);
    reveal_strlit("name");
    assert("name"@.len() == 4);
    reveal_strlit("required");
    assert("required"@.len() == 8);
    reveal_strlit("type");
    assert("type"@.len() == 4);
    reveal_strlit("doc");
    assert("doc"@.len() == 3);
    assert("name"@[0] == 'n');
    assert("type"@[0] == 't');
}

/// The names in a list's object are distinct.
proof fn list_names_distinct()
    ensures
        "type"@ != "element-id"@,
        "type"@ != "element-required"@,
        "type"@ != "element"@,
        "element-id"@ != "element-required"@,
        "element-id"@ != "element"@,
        "element-required"@ != "element"@,
{
    reveal_strlit("type");
    assert("type"@.len() == 4);
    reveal_strlit("element-id");
    assert("element-id"@.len() == 10);
    reveal_strlit("element-required");
    assert("element-required"@.len() == 16);
    reveal_strlit("element");
    assert("element"@.len() == 7);
}

/// The names in a map's object are distinct.
proof fn map_names_distinct()
    ensures
        "type"@ != "key-id"@,
        "type"@ != "key"@,
        "type"@ != "value-id"@,
        "type"@ != "value-required"@,
        "type"@ != "value"@,
        "key-id"@ != "key"@,
        "key-id"@ != "value-id"@,
        "key-id"@ != "value-required"@,
        "key-id"@ != "value"@,
        "key"@ != "value-id"@,
        "key"@ != "value-required"@,
        "key"@ != "value"@,
        "value-id"@ != "value-required"@,
        "value-id"@ != "value"@,
        "value-required"@ != "value"@,
{
    reveal_strlit("type");
    assert("type"@.len() == 4);
    reveal_strlit("key-id");
    assert("key-id"@.len() == 6);
    reveal_strlit("key");
    assert("key"@.len() == 3);
    reveal_strlit("value-id");
    assert("value-id"@.len() == 8);
    reveal_strlit("value-required");
    assert("value-required"@.len() == 14);
    reveal_strlit("value");
    assert("value"@.len() == 5);
}

/// Builds the JSON object for an Iceberg column.
pub fn field_value(field: &IcebergDataField) -> (r: serde_json::Value)
    ensures
        json_tree(r) == field_tree(field@),
{
    let mut members: Vec<(String, serde_json::Value)> = Vec::new();
    assert(json_members(members@) =~= Seq::empty());
    add_member(&mut members, "id", json_int(field.id as i64));
    add_member(&mut members, "name", text_value(field.name.as_str()));
    add_member(&mut members, "required", json_bool(field.required));
    add_member(&mut members, "type", json_clone(&field.type_val));
    proof {
        column_names_distinct();
    }
    match &field.doc {
        Some(doc) => {
            add_member(&mut members, "doc", text_value(doc.as_str()));
            assert(json_members(members@) =~= field_tree(field@)->Object_0);
            json_object(members)
        },
        None => {
            assert(json_members(members@) =~= field_tree(field@)->Object_0);
            json_object(members)
        },
    }
}

/// Builds the JSON objects for the fields of a row type.
fn row_values(fields: &Vec<DataField>) -> (r: Vec<serde_json::Value>)
    requires
        row_fits(fields@),
    ensures
        json_trees(r@) == row_trees(fields@),
    decreases fields@, 0int,
{
    let mut values: Vec<serde_json::Value> = Vec::new();
    let mut i: usize = 0;
    while i < fields.len()
        invariant
            row_fits(fields@),
            i <= fields.len(),
            values@.len() == i,
            forall|k: int| 0 <= k < i ==> #[trigger] json_tree(values@[k]) == row_trees(fields@)[k],
        decreases fields.len() - i,
    {
        assert(type_fits(fields@[i as int].data_type, fields@[i as int].id, 0));
        let column = from_paimon_field(&fields[i]);
        values.push(field_value(&column));
        i = i + 1;
    }
    assert(json_trees(values@) =~= row_trees(fields@));
    values
}

/// Builds the Iceberg column for a Paimon column.
pub(crate) fn from_paimon_field(field: &DataField) -> (r: IcebergDataField)
    requires
        type_fits(field.data_type, field.id, 0),
    ensures
        r@ == iceberg_field(*field),
    decreases field, 0int,
{
    IcebergDataField {
        id: field.id,
        name: field.name.clone(),
        required: !field.data_type.nullable,
        type_val: paimon_type_to_iceberg(&field.data_type, field.id, 0),
        doc: copy_text(&field.description),
    }
}

/// Converts a Paimon type to its Iceberg representation: a JSON string for a
/// primitive type, a JSON object for a list, map or struct. A type that
/// Iceberg does not know becomes `binary`.
pub fn paimon_type_to_iceberg(dt: &DataType, field_id: i32, depth: usize) -> (r: serde_json::Value)
    requires
        type_fits(*dt, field_id, depth as int),
    ensures
        json_tree(r) == iceberg_type(*dt, field_id, depth as int),
    decreases dt, 0int,
{
    match &dt.root {
        TypeRoot::Boolean => text_value("boolean"),
        TypeRoot::TinyInt | TypeRoot::SmallInt | TypeRoot::Int => text_value("int"),
        TypeRoot::BigInt => text_value("long"),
        TypeRoot::Float => text_value("float"),
        TypeRoot::Double => text_value("double"),
        TypeRoot::Date => text_value("date"),
        TypeRoot::Char | TypeRoot::VarChar => text_value("string"),
        TypeRoot::Binary | TypeRoot::VarBinary | TypeRoot::Blob => text_value("binary"),
        TypeRoot::Decimal { precision, scale } => {
            let mut text = "decimal(".to_owned();
            text.append(u64_text(*precision as u64).as_str());
            text.append(", ");
            text.append(u64_text(*scale as u64).as_str());
            text.append(")");
            json_string(text)
        },
        TypeRoot::Timestamp { precision } => {
            if *precision >= 7 {
                text_value("timestamp_ns")
            } else {
                text_value("timestamp")
            }
        },
        TypeRoot::LocalZonedTimestamp { precision } => {
            if *precision >= 7 {
                text_value("timestamptz_ns")
            } else {
                text_value("timestamptz")
            }
        },
        TypeRoot::ArrayOf(element) => {
            let id: i32 = element_field_id(field_id, depth + 1);
            let element_type = paimon_type_to_iceberg(element, field_id, depth + 1);
            let mut members: Vec<(String, serde_json::Value)> = Vec::new();
            assert(json_members(members@) =~= Seq::empty());
            add_member(&mut members, "type", text_value("list"));
            add_member(&mut members, "element-id", json_int(id as i64));
            add_member(&mut members, "element-required", json_bool(!element.nullable));
            add_member(&mut members, "element", element_type);
            proof {
                list_names_distinct();
            }
            assert(json_members(members@) =~= iceberg_type(
                *dt,
                field_id,
                depth as int,
            )->Object_0);
            json_object(members)
        },
        TypeRoot::MapOf(key, value) => {
            let key_id: i32 = map_key_field_id(field_id, depth + 1);
            let value_id: i32 = map_value_field_id(field_id, depth + 1);
            let key_type = paimon_type_to_iceberg(key, field_id, depth + 1);
            let value_type = paimon_type_to_iceberg(value, field_id, depth + 1);
            let mut members: Vec<(String, serde_json::Value)> = Vec::new();
            assert(json_members(members@) =~= Seq::empty());
            add_member(&mut members, "type", text_value("map"));
            add_member(&mut members, "key-id", json_int(key_id as i64));
            add_member(&mut members, "key", key_type);
            add_member(&mut members, "value-id", json_int(value_id as i64));
            add_member(&mut members, "value-required", json_bool(!value.nullable));
            add_member(&mut members, "value", value_type);
            proof {
                map_names_distinct();
            }
            assert(json_members(members@) =~= iceberg_type(
                *dt,
                field_id,
                depth as int,
            )->Object_0);
            json_object(members)
        },
        TypeRoot::Row(fields) => {
            let values = row_values(fields);
            let mut members: Vec<(String, serde_json::Value)> = Vec::new();
            assert(json_members(members@) =~= Seq::empty());
            add_member(&mut members, "type", text_value("struct"));
            add_member(&mut members, "fields", json_array(values));
            proof {
                reveal_strlit("type");
                reveal_strlit("fields");
                assert("type"@.len() != "fields"@.len());
            }
            assert(json_members(members@) =~= iceberg_type(
                *dt,
                field_id,
                depth as int,
            )->Object_0);
            json_object(members)
        },
        TypeRoot::Time | TypeRoot::MultisetOf(_) | TypeRoot::VectorOf(_) => text_value("binary"),
    }
}

/// Whether every id inside a type can be computed in 32 bits.
fn type_is_convertible(dt: &DataType, field_id: i32, depth: usize) -> (r: bool)
    ensures
        r == type_fits(*dt, field_id, depth as int),
    decreases dt, 0int,
{
    let base: i64 = field_id as i64 * 10;
    let base_fits: bool = -0x8000_0000 <= base && base <= 0x7fff_ffff;
    match &dt.root {
        TypeRoot::ArrayOf(element) => {
            if depth == usize::MAX || !base_fits {
                return false;
            }
            let id: i64 = base + (depth + 1) as i32 as i64;
            -0x8000_0000 <= id && id <= 0x7fff_ffff && type_is_convertible(
                element,
                field_id,
                depth + 1,
            )
        },
        TypeRoot::MapOf(key, value) => {
            if depth == usize::MAX || !base_fits {
                return false;
            }
            let offset: i64 = (depth + 1) as i32 as i64 * 2;
            let id: i64 = base + offset;
            -0x8000_0000 <= offset && offset <= 0x7fff_ffff && -0x7fff_ffff <= id && id
                <= 0x7fff_ffff && type_is_convertible(key, field_id, depth + 1)
                && type_is_convertible(value, field_id, depth + 1)
        },
        TypeRoot::Row(fields) => fields_are_convertible(fields),
        _ => true,
    }
}

/// Whether every id inside the columns can be computed in 32 bits.
pub fn fields_are_convertible(fields: &Vec<DataField>) -> (r: bool)
    ensures
        r == row_fits(fields@),
    decreases fields@, 0int,
{
    let mut i: usize = 0;
    while i < fields.len()
        invariant
            i <= fields.len(),
            forall|k: int|
                0 <= k < i ==> type_fits((#[trigger] fields@[k]).data_type, fields@[k].id, 0),
        decreases fields.len() - i,
    {
        if !type_is_convertible(&fields[i].data_type, fields[i].id, 0) {
            assert(!type_fits(fields@[i as int].data_type, fields@[i as int].id, 0));
            return false;
        }
        i = i + 1;
    }
    true
}

/// A map's key and value have neighbouring ids, so they never share one.
pub proof fn map_ids_are_adjacent(field_id: i32, depth: int)
    ensures
        map_value_id(field_id, depth) == map_key_id(field_id, depth) + 1,
{
}

/// Whether the Iceberg representation of a type has at most `depth` arrays and
/// objects inside each other: a list and a map are one object, and a struct is
/// an object with an array of objects.
pub open spec fn is_shallow(dt: DataType, depth: int) -> bool
    decreases dt,
{
    match dt.root {
        TypeRoot::ArrayOf(element) => depth >= 1 && is_shallow(*element, depth - 1),
        TypeRoot::MapOf(key, value) => depth >= 1 && is_shallow(*key, depth - 1) && is_shallow(
            *value,
            depth - 1,
        ),
        TypeRoot::Row(fields) => depth >= 2 && are_shallow(fields@, depth - 2),
        _ => true,
    }
}

/// Whether the objects for the fields of a row type have at most `depth` arrays
/// and objects inside each other.
pub open spec fn are_shallow(fields: Seq<DataField>, depth: int) -> bool
    decreases fields,
{
    forall|i: int|
        0 <= i < fields.len() ==> depth >= 1 && is_shallow(
            (#[trigger] fields[i]).data_type,
            depth - 1,
        )
}

/// The Iceberg representation of a type that is not nested too deeply can be
/// read back.
pub proof fn shallow_types_are_readable(dt: DataType, field_id: i32, depth: int, limit: nat)
    requires
        is_shallow(dt, limit as int),
    ensures
        is_readable(iceberg_type(dt, field_id, depth), limit),
    decreases dt,
{
    reveal_with_fuel(is_readable, 2);
    match dt.root {
        TypeRoot::ArrayOf(element) => {
            shallow_types_are_readable(*element, field_id, depth + 1, (limit - 1) as nat);
        },
        TypeRoot::MapOf(key, value) => {
            shallow_types_are_readable(*key, field_id, depth + 1, (limit - 1) as nat);
            shallow_types_are_readable(*value, field_id, depth + 1, (limit - 1) as nat);
        },
        TypeRoot::Row(fields) => {
            shallow_rows_are_readable(fields@, (limit - 2) as nat);
            assert(is_readable(Json::Array(row_trees(fields@)), (limit - 1) as nat));
        },
        _ => {},
    }
}

/// The objects for fields that are not nested too deeply can be read back.
proof fn shallow_rows_are_readable(fields: Seq<DataField>, limit: nat)
    requires
        are_shallow(fields, limit as int),
    ensures
        forall|i: int| 0 <= i < fields.len() ==> is_readable(#[trigger] row_trees(fields)[i], limit),
    decreases fields,
{
    reveal_with_fuel(is_readable, 2);
    assert forall|i: int| 0 <= i < fields.len() implies is_readable(
        #[trigger] row_trees(fields)[i],
        limit,
    ) by {
        assert(is_shallow(fields[i].data_type, limit - 1));
        shallow_types_are_readable(fields[i].data_type, fields[i].id, 0, (limit - 1) as nat);
        assert(row_trees(fields)[i] == field_tree(iceberg_field(fields[i])));
    }
}

} // verus!
