//! Avro values and Avro container files, as `apache_avro` holds and writes
//! them.
use vstd::prelude::*;

use crate::manifest::{
    record_fits, ICEBERG_MANIFEST_ENTRY_SCHEMA, ICEBERG_MANIFEST_LIST_SCHEMA,
};

verus! {

/// What an Avro value holds.
#[verifier::ext_equal]
pub enum Avro {
    Null,
    Boolean(bool),
    Int(i32),
    Long(i64),
    Bytes(Seq<u8>),
    Text(Seq<char>),
    Union(u32, Box<Avro>),
    Array(Seq<Avro>),
    Table(Map<Seq<char>, Avro>),
    Record(Seq<(Seq<char>, Avro)>),
    /// A kind of value that no manifest holds.
    Other,
}

/// The type `apache_avro::types::Value`.
#[verifier::external_type_specification]
#[verifier::external_body]
pub struct ExValue(apache_avro::types::Value);

/// The type `apache_avro::Error`.
#[verifier::external_type_specification]
#[verifier::external_body]
pub struct ExError(apache_avro::Error);

/// What an `apache_avro::types::Value` holds.
pub uninterp spec fn avro_tree(value: apache_avro::types::Value) -> Avro;

/// The container file that `apache_avro::Writer` makes of some records, given
/// the text of their schema and the sixteen bytes that mark the end of a block.
pub uninterp spec fn avro_container(
    schema: Seq<char>,
    records: Seq<Avro>,
    marker: Seq<u8>,
) -> Seq<u8>;

/// The records in a container file. `apache_avro::Reader` decodes them, as long
/// as no block, text, buffer or array in them is larger than it is willing to
/// allocate.
pub uninterp spec fn avro_contents(file: Seq<u8>) -> Seq<Avro>;

/// The last sixteen bytes of a container file, which mark the end of a block.
pub open spec fn block_marker(file: Seq<u8>) -> Seq<u8> {
    file.skip(file.len() - 16)
}

/// What each value of a sequence holds.
pub open spec fn avro_trees(values: Seq<apache_avro::types::Value>) -> Seq<Avro> {
    Seq::new(values.len(), |i: int| avro_tree(values[i]))
}

/// What each field of a sequence of fields holds.
pub open spec fn avro_fields(fields: Seq<(String, apache_avro::types::Value)>) -> Seq<
    (Seq<char>, Avro),
> {
    Seq::new(fields.len(), |i: int| (fields[i].0@, avro_tree(fields[i].1)))
}

/// Makes an `apache_avro::types::Value::Boolean`.
#[verifier::external_body]
pub(crate) fn avro_boolean(b: bool) -> (r: apache_avro::types::Value)
    ensures
        avro_tree(r) == Avro::Boolean(b),
{
    apache_avro::types::Value::Boolean(b)
}

/// Makes an `apache_avro::types::Value::Int`.
#[verifier::external_body]
pub(crate) fn avro_int(i: i32) -> (r: apache_avro::types::Value)
    ensures
        avro_tree(r) == Avro::Int(i),
{
    apache_avro::types::Value::Int(i)
}

/// Makes an `apache_avro::types::Value::Long`.
#[verifier::external_body]
pub(crate) fn avro_long(i: i64) -> (r: apache_avro::types::Value)
    ensures
        avro_tree(r) == Avro::Long(i),
{
    apache_avro::types::Value::Long(i)
}

/// Makes an `apache_avro::types::Value::Bytes`.
#[verifier::external_body]
pub(crate) fn avro_bytes(bytes: Vec<u8>) -> (r: apache_avro::types::Value)
    ensures
        avro_tree(r) == Avro::Bytes(bytes@),
{
    apache_avro::types::Value::Bytes(bytes)
}

/// Makes an `apache_avro::types::Value::String`.
#[verifier::external_body]
pub(crate) fn avro_string(text: String) -> (r: apache_avro::types::Value)
    ensures
        avro_tree(r) == Avro::Text(text@),
{
    apache_avro::types::Value::String(text)
}

/// Makes the absent branch of an optional value: an
/// `apache_avro::types::Value::Union` with the branch 0, which holds
/// `apache_avro::types::Value::Null`.
#[verifier::external_body]
pub(crate) fn avro_absent() -> (r: apache_avro::types::Value)
    ensures
        avro_tree(r) == Avro::Union(0, Box::new(Avro::Null)),
{
    apache_avro::types::Value::Union(0, Box::new(apache_avro::types::Value::Null))
}

/// Makes an `apache_avro::types::Value::Union` with the given branch.
#[verifier::external_body]
pub(crate) fn avro_union(branch: u32, value: apache_avro::types::Value) -> (r:
    apache_avro::types::Value)
    ensures
        avro_tree(r) == Avro::Union(branch, Box::new(avro_tree(value))),
{
    apache_avro::types::Value::Union(branch, Box::new(value))
}

/// Makes an `apache_avro::types::Value::Array`, which holds the given values
/// in order.
#[verifier::external_body]
pub(crate) fn avro_array(values: Vec<apache_avro::types::Value>) -> (r: apache_avro::types::Value)
    ensures
        avro_tree(r) == Avro::Array(avro_trees(values@)),
{
    apache_avro::types::Value::Array(values)
}

/// Makes an `apache_avro::types::Value::Map` without entries.
#[verifier::external_body]
pub(crate) fn avro_empty_map() -> (r: apache_avro::types::Value)
    ensures
        avro_tree(r) == Avro::Table(Map::empty()),
{
    apache_avro::types::Value::Map(std::collections::HashMap::new())
}

/// Makes an `apache_avro::types::Value::Record`, which holds the given fields
/// in order.
#[verifier::external_body]
pub(crate) fn avro_record(fields: Vec<(String, apache_avro::types::Value)>) -> (r:
    apache_avro::types::Value)
    ensures
        avro_tree(r) == Avro::Record(avro_fields(fields@)),
{
    apache_avro::types::Value::Record(fields)
}

/// Calls `apache_avro::Writer` on records that have exactly the form of their
/// schema: the two manifest schemas parse, such records pass the writer's
/// validation, and writing into memory does not fail. The file depends on the
/// schema, the records and a block marker that the writer draws at random; it
/// ends with that marker, and it contains the same records.
#[verifier::external_body]
pub(crate) fn write_container(schema: &str, records: &Vec<apache_avro::types::Value>) -> (r: Result<
    Vec<u8>,
    apache_avro::Error,
>)
    requires
        schema@ == ICEBERG_MANIFEST_LIST_SCHEMA@ || schema@ == ICEBERG_MANIFEST_ENTRY_SCHEMA@,
        forall|i: int|
            0 <= i < records@.len() ==> record_fits(schema@, #[trigger] avro_trees(records@)[i]),
    ensures
        r is Ok,
        r->Ok_0@.len() >= 16,
        r->Ok_0@ == avro_container(schema@, avro_trees(records@), block_marker(r->Ok_0@)),
        avro_contents(r->Ok_0@) == avro_trees(records@),
{
    let schema = apache_avro::Schema::parse_str(schema)?;
    let mut writer = apache_avro::Writer::new(&schema, Vec::new())?;
    writer.extend_from_slice(records)?;
    writer.into_inner()
}

/// Adds a field to the fields of a record that is being built.
pub(crate) fn add_field(
    fields: &mut Vec<(String, apache_avro::types::Value)>,
    name: &str,
    value: apache_avro::types::Value,
)
    ensures
        avro_fields(final(fields)@) == avro_fields(old(fields)@).push((name@, avro_tree(value))),
{
    let ghost before = avro_fields(fields@);
    fields.push((name.to_owned(), value));
    assert(avro_fields(fields@) =~= before.push((name@, avro_tree(value))));
}

} // verus!
