//! Which Iceberg type a Paimon type becomes.
use vstd::prelude::*;

use crate::json::Json;
use crate::table::{text_of, DataField, DataType, TypeRoot};
use crate::text::{int_text, parsed_i64, printed_integers_parse};
use crate::types::{
    element_id, field_tree, iceberg_field, iceberg_type, map_key_id, map_value_id, row_fits,
    row_trees, type_fits,
};

verus! {

/// Whether an object has a member with the given name and value.
pub open spec fn has_member(tree: Json, name: Seq<char>, value: Json) -> bool {
    tree is Object && tree->Object_0.contains((name, value))
}

/// A timestamp of seven or more digits is an Iceberg timestamp in nanoseconds,
/// one of six or fewer digits an Iceberg timestamp in microseconds, wherever in
/// a column it stands. The two are never the same type.
pub proof fn seven_digits_make_nanoseconds(
    nullable: bool,
    precision: u32,
    field_id: i32,
    depth: int,
)
    ensures
        precision >= 7 ==> iceberg_type(
            DataType { nullable, root: TypeRoot::Timestamp { precision } },
            field_id,
            depth,
        ) == Json::Text("timestamp_ns"@),
        precision <= 6 ==> iceberg_type(
            DataType { nullable, root: TypeRoot::Timestamp { precision } },
            field_id,
            depth,
        ) == Json::Text("timestamp"@),
        precision >= 7 ==> iceberg_type(
            DataType { nullable, root: TypeRoot::LocalZonedTimestamp { precision } },
            field_id,
            depth,
        ) == Json::Text("timestamptz_ns"@),
        precision <= 6 ==> iceberg_type(
            DataType { nullable, root: TypeRoot::LocalZonedTimestamp { precision } },
            field_id,
            depth,
        ) == Json::Text("timestamptz"@),
        "timestamp"@ != "timestamp_ns"@,
        "timestamptz"@ != "timestamptz_ns"@,
        "timestamp"@ != "timestamptz"@,
        "timestamp_ns"@ != "timestamptz_ns"@,
{
    reveal_strlit("timestamp");
    reveal_strlit("timestamp_ns");
    reveal_strlit("timestamptz");
    reveal_strlit("timestamptz_ns");
    assert("timestamp"@.len() == 9);
    assert("timestamp_ns"@.len() == 12);
    assert("timestamptz"@.len() == 11);
    assert("timestamptz_ns"@.len() == 14);
}

/// Two timestamps of one kind have the same Iceberg type just where both have
/// at least seven digits or neither has.
pub proof fn timestamps_are_split_once(
    nullable: bool,
    p: u32,
    q: u32,
    field_id: i32,
    depth: int,
)
    ensures
        iceberg_type(
            DataType { nullable, root: TypeRoot::Timestamp { precision: p } },
            field_id,
            depth,
        ) == iceberg_type(
            DataType { nullable, root: TypeRoot::Timestamp { precision: q } },
            field_id,
            depth,
        ) <==> (p >= 7) == (q >= 7),
        iceberg_type(
            DataType { nullable, root: TypeRoot::LocalZonedTimestamp { precision: p } },
            field_id,
            depth,
        ) == iceberg_type(
            DataType { nullable, root: TypeRoot::LocalZonedTimestamp { precision: q } },
            field_id,
            depth,
        ) <==> (p >= 7) == (q >= 7),
{
    seven_digits_make_nanoseconds(nullable, p, field_id, depth);
    seven_digits_make_nanoseconds(nullable, q, field_id, depth);
}

/// A decimal keeps its precision and its scale: both can be read off the name
/// of its Iceberg type.
pub proof fn decimals_keep_their_digits(
    nullable: bool,
    precision: u32,
    scale: u32,
    field_id: i32,
    depth: int,
)
    ensures
        exists|p: Seq<char>, s: Seq<char>|
            {
                &&& parsed_i64(p) == Some(precision as i64)
                &&& parsed_i64(s) == Some(scale as i64)
                &&& iceberg_type(
                    DataType { nullable, root: TypeRoot::Decimal { precision, scale } },
                    field_id,
                    depth,
                ) == Json::Text(#[trigger] ("decimal("@ + p + ", "@ + s) + ")"@)
            },
{
    let p = int_text(precision as int);
    let s = int_text(scale as int);
    printed_integers_parse(precision as i64);
    printed_integers_parse(scale as i64);
    assert(iceberg_type(
        DataType { nullable, root: TypeRoot::Decimal { precision, scale } },
        field_id,
        depth,
    ) == Json::Text(("decimal("@ + p + ", "@ + s) + ")"@));
}

/// The types without parts have the same name wherever they stand, and whether
/// they admit NULL or not. Iceberg has no shorter integer than `int`, no
/// bounded strings or byte strings, and what it lacks altogether is `binary`.
pub proof fn plain_types_have_their_names(dt: DataType, field_id: i32, depth: int)
    ensures
        dt.root is Boolean ==> iceberg_type(dt, field_id, depth) == Json::Text("boolean"@),
        dt.root is TinyInt || dt.root is SmallInt || dt.root is Int ==> iceberg_type(
            dt,
            field_id,
            depth,
        ) == Json::Text("int"@),
        dt.root is BigInt ==> iceberg_type(dt, field_id, depth) == Json::Text("long"@),
        dt.root is Float ==> iceberg_type(dt, field_id, depth) == Json::Text("float"@),
        dt.root is Double ==> iceberg_type(dt, field_id, depth) == Json::Text("double"@),
        dt.root is Date ==> iceberg_type(dt, field_id, depth) == Json::Text("date"@),
        dt.root is Char || dt.root is VarChar ==> iceberg_type(dt, field_id, depth) == Json::Text(
            "string"@,
        ),
        dt.root is Binary || dt.root is VarBinary || dt.root is Blob || dt.root is Time
            || dt.root is MultisetOf || dt.root is VectorOf ==> iceberg_type(dt, field_id, depth)
            == Json::Text("binary"@),
{
}

/// A list is an object of four members: its kind, the id of its element, whether
/// an element has to be there, and the type of the element one level deeper.
pub proof fn lists_tell_their_element(
    nullable: bool,
    element: DataType,
    field_id: i32,
    depth: int,
)
    requires
        0 <= depth < 0x7fff_ffff,
    ensures
        ({
            let tree = iceberg_type(
                DataType { nullable, root: TypeRoot::ArrayOf(Box::new(element)) },
                field_id,
                depth,
            );
            &&& has_member(tree, "type"@, Json::Text("list"@))
            &&& has_member(tree, "element-id"@, Json::Int(10 * field_id + depth + 1))
            &&& has_member(tree, "element-required"@, Json::Bool(!element.nullable))
            &&& has_member(tree, "element"@, iceberg_type(element, field_id, depth + 1))
            &&& tree->Object_0.len() == 4
        }),
{
    let tree = iceberg_type(
        DataType { nullable, root: TypeRoot::ArrayOf(Box::new(element)) },
        field_id,
        depth,
    );
    let members = tree->Object_0;
    assert(members[0] == ("type"@, Json::Text("list"@)));
    assert(members[1] == ("element-id"@, Json::Int(10 * field_id + depth + 1)));
    assert(members[2] == ("element-required"@, Json::Bool(!element.nullable)));
    assert(members[3] == ("element"@, iceberg_type(element, field_id, depth + 1)));
}

/// A map is an object of six members: its kind, the ids of its key and value,
/// whether a value has to be there, and the types of both one level deeper.
pub proof fn maps_tell_their_parts(
    nullable: bool,
    key: DataType,
    value: DataType,
    field_id: i32,
    depth: int,
)
    requires
        0 <= depth < 0x7fff_ffff,
    ensures
        ({
            let tree = iceberg_type(
                DataType { nullable, root: TypeRoot::MapOf(Box::new(key), Box::new(value)) },
                field_id,
                depth,
            );
            &&& has_member(tree, "type"@, Json::Text("map"@))
            &&& has_member(tree, "key-id"@, Json::Int(10 * field_id + 2 * depth + 1))
            &&& has_member(tree, "key"@, iceberg_type(key, field_id, depth + 1))
            &&& has_member(tree, "value-id"@, Json::Int(10 * field_id + 2 * depth + 2))
            &&& has_member(tree, "value-required"@, Json::Bool(!value.nullable))
            &&& has_member(tree, "value"@, iceberg_type(value, field_id, depth + 1))
            &&& tree->Object_0.len() == 6
        }),
{
    let tree = iceberg_type(
        DataType { nullable, root: TypeRoot::MapOf(Box::new(key), Box::new(value)) },
        field_id,
        depth,
    );
    let members = tree->Object_0;
    assert(members[0] == ("type"@, Json::Text("map"@)));
    assert(members[1] == ("key-id"@, Json::Int(10 * field_id + 2 * depth + 1)));
    assert(members[2] == ("key"@, iceberg_type(key, field_id, depth + 1)));
    assert(members[3] == ("value-id"@, Json::Int(10 * field_id + 2 * depth + 2)));
    assert(members[4] == ("value-required"@, Json::Bool(!value.nullable)));
    assert(members[5] == ("value"@, iceberg_type(value, field_id, depth + 1)));
}

/// Whether a tree is the object of a column: it has the column's id, name,
/// nullability and description, and its type, whose parts are numbered from the
/// column's own id.
pub open spec fn is_column_object(tree: Json, field: DataField) -> bool {
    &&& has_member(tree, "id"@, Json::Int(field.id as int))
    &&& has_member(tree, "name"@, Json::Text(field.name@))
    &&& has_member(tree, "required"@, Json::Bool(!field.data_type.nullable))
    &&& has_member(tree, "type"@, iceberg_type(field.data_type, field.id, 0))
    &&& match text_of(field.description) {
        Some(doc) => has_member(tree, "doc"@, Json::Text(doc)) && tree->Object_0.len() == 5,
        None => tree->Object_0.len() == 4,
    }
}

/// The object of a column says what the column says.
pub proof fn columns_tell_themselves(field: DataField)
    ensures
        is_column_object(field_tree(iceberg_field(field)), field),
{
    let tree = field_tree(iceberg_field(field));
    let members = tree->Object_0;
    assert(members[0] == ("id"@, Json::Int(field.id as int)));
    assert(members[1] == ("name"@, Json::Text(field.name@)));
    assert(members[2] == ("required"@, Json::Bool(!field.data_type.nullable)));
    assert(members[3] == ("type"@, iceberg_type(field.data_type, field.id, 0)));
    if text_of(field.description) is Some {
        assert(members[4] == ("doc"@, Json::Text(text_of(field.description)->0)));
    }
}

/// A row is an object of two members: its kind, and one object per field, in the
/// order of the fields.
pub proof fn rows_tell_their_fields(
    nullable: bool,
    fields: Vec<DataField>,
    field_id: i32,
    depth: int,
)
    ensures
        ({
            let tree = iceberg_type(
                DataType { nullable, root: TypeRoot::Row(fields) },
                field_id,
                depth,
            );
            &&& tree is Object
            &&& tree->Object_0.len() == 2
            &&& tree->Object_0[0] == ("type"@, Json::Text("struct"@))
            &&& tree->Object_0[1].0 == "fields"@
            &&& tree->Object_0[1].1 is Array
            &&& tree->Object_0[1].1->Array_0.len() == fields@.len()
            &&& forall|i: int|
                0 <= i < fields@.len() ==> is_column_object(
                    #[trigger] tree->Object_0[1].1->Array_0[i],
                    fields@[i],
                )
        }),
{
    let tree = iceberg_type(DataType { nullable, root: TypeRoot::Row(fields) }, field_id, depth);
    let trees = tree->Object_0[1].1->Array_0;
    assert(trees == row_trees(fields@));
    assert forall|i: int| 0 <= i < fields@.len() implies is_column_object(
        #[trigger] trees[i],
        fields@[i],
    ) by {
        assert(row_trees(fields@)[i] == field_tree(iceberg_field(fields@[i])));
        columns_tell_themselves(fields@[i]);
    }
}

/// The ids inside a column are ten times the column's id and a little more: one
/// id for each level of lists, two for each level of maps.
pub proof fn ids_inside_a_column(field_id: i32, depth: int)
    requires
        0 <= depth <= 0x7fff_ffff,
    ensures
        element_id(field_id, depth) == 10 * field_id + depth,
        map_value_id(field_id, depth) == 10 * field_id + 2 * depth,
        map_key_id(field_id, depth) == 10 * field_id + 2 * depth - 1,
{
}

/// A type can be converted just where the ids inside it fit in 32 bits. A type
/// without numbered parts always can, and a row just where each field can on
/// its own.
pub proof fn ids_decide_whether_a_type_fits(dt: DataType, field_id: i32, depth: int)
    requires
        0 <= depth < 0x3fff_ffff,
    ensures
        match dt.root {
            TypeRoot::ArrayOf(element) => type_fits(dt, field_id, depth) <==> {
                &&& -0x8000_0000 <= 10 * field_id
                &&& 10 * field_id + depth + 1 <= 0x7fff_ffff
                &&& type_fits(*element, field_id, depth + 1)
            },
            TypeRoot::MapOf(key, value) => type_fits(dt, field_id, depth) <==> {
                &&& -0x8000_0000 <= 10 * field_id
                &&& 10 * field_id + 2 * depth + 2 <= 0x7fff_ffff
                &&& type_fits(*key, field_id, depth + 1)
                &&& type_fits(*value, field_id, depth + 1)
            },
            TypeRoot::Row(fields) => type_fits(dt, field_id, depth) <==> forall|i: int|
                0 <= i < fields@.len() ==> type_fits(
                    (#[trigger] fields@[i]).data_type,
                    fields@[i].id,
                    0,
                ),
            _ => type_fits(dt, field_id, depth),
        },
{
    if let TypeRoot::Row(fields) = dt.root {
        assert(type_fits(dt, field_id, depth) == row_fits(fields@));
    }
}

} // verus!
