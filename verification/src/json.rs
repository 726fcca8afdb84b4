//! JSON trees, as `serde_json` holds and prints them.
use vstd::prelude::*;

verus! {

/// What a JSON value holds. The members of an object stand in the order in
/// which they are printed.
#[verifier::ext_equal]
pub enum Json {
    Null,
    Bool(bool),
    Int(int),
    /// A number with a fraction or an exponent, by its bits.
    Real(u64),
    Text(Seq<char>),
    Array(Seq<Json>),
    Object(Seq<(Seq<char>, Json)>),
}

/// The type `serde_json::Value`.
#[verifier::external_type_specification]
#[verifier::external_body]
pub struct ExValue(serde_json::Value);

/// The type `serde_json::Error`.
#[verifier::external_type_specification]
#[verifier::external_body]
pub struct ExError(serde_json::Error);

/// What a `serde_json::Value` holds.
pub uninterp spec fn json_tree(value: serde_json::Value) -> Json;

/// The text that `serde_json::to_string_pretty` prints for a tree.
pub uninterp spec fn json_pretty(tree: Json) -> Seq<char>;

/// What `serde_json::from_str` makes of a text, where the text is that of a
/// JSON value.
pub uninterp spec fn json_parsed(text: Seq<char>) -> Option<Json>;

/// Whether a tree has at most `depth` arrays and objects inside each other, and
/// no number with a fraction or an exponent.
pub open spec fn is_readable(tree: Json, depth: nat) -> bool
    decreases depth,
{
    match tree {
        Json::Real(_) => false,
        Json::Array(items) => depth > 0 && forall|i: int|
            0 <= i < items.len() ==> is_readable(#[trigger] items[i], (depth - 1) as nat),
        Json::Object(members) => depth > 0 && forall|i: int|
            0 <= i < members.len() ==> is_readable((#[trigger] members[i]).1, (depth - 1) as nat),
        _ => true,
    }
}

/// How many arrays and objects inside each other `serde_json` reads.
pub const NESTING_LIMIT: u8 = 127;

/// What each value of a sequence holds.
pub open spec fn json_trees(values: Seq<serde_json::Value>) -> Seq<Json> {
    Seq::new(values.len(), |i: int| json_tree(values[i]))
}

/// What each member of a sequence of members holds.
pub open spec fn json_members(members: Seq<(String, serde_json::Value)>) -> Seq<(Seq<char>, Json)> {
    Seq::new(members.len(), |i: int| (members[i].0@, json_tree(members[i].1)))
}

/// Whether no name occurs twice among the members.
pub open spec fn distinct_names(members: Seq<(Seq<char>, Json)>) -> bool {
    forall|i: int, j: int|
        0 <= i < j < members.len() ==> #[trigger] members[i].0 != #[trigger] members[j].0
}

/// Makes a `serde_json::Value::Bool`, which holds the given truth value.
#[verifier::external_body]
pub(crate) fn json_bool(b: bool) -> (r: serde_json::Value)
    ensures
        json_tree(r) == Json::Bool(b),
{
    serde_json::Value::Bool(b)
}

/// Makes a `serde_json::Value::Number` from a signed integer, which it holds
/// exactly.
#[verifier::external_body]
pub(crate) fn json_int(i: i64) -> (r: serde_json::Value)
    ensures
        json_tree(r) == Json::Int(i as int),
{
    serde_json::Value::Number(serde_json::Number::from(i))
}

/// Makes a `serde_json::Value::Number` from an unsigned integer, which it
/// holds exactly.
#[verifier::external_body]
pub(crate) fn json_unsigned(n: u64) -> (r: serde_json::Value)
    ensures
        json_tree(r) == Json::Int(n as int),
{
    serde_json::Value::Number(serde_json::Number::from(n))
}

/// Makes a `serde_json::Value::String`, which holds the given text.
#[verifier::external_body]
pub(crate) fn json_string(text: String) -> (r: serde_json::Value)
    ensures
        json_tree(r) == Json::Text(text@),
{
    serde_json::Value::String(text)
}

/// Makes a `serde_json::Value::Array`, which holds the given values in order.
#[verifier::external_body]
pub(crate) fn json_array(values: Vec<serde_json::Value>) -> (r: serde_json::Value)
    ensures
        json_tree(r) == Json::Array(json_trees(values@)),
{
    serde_json::Value::Array(values)
}

/// Makes a `serde_json::Value::Object`. Its map keeps members in the order in
/// which they were put in, so with distinct names it holds all of them in the
/// given order.
#[verifier::external_body]
pub(crate) fn json_object(members: Vec<(String, serde_json::Value)>) -> (r: serde_json::Value)
    requires
        distinct_names(json_members(members@)),
    ensures
        json_tree(r) == Json::Object(json_members(members@)),
{
    serde_json::Value::Object(members.into_iter().collect())
}

/// Calls `serde_json::Value::clone`: the copy holds what the value holds.
#[verifier::external_body]
pub(crate) fn json_clone(value: &serde_json::Value) -> (r: serde_json::Value)
    ensures
        json_tree(r) == json_tree(*value),
{
    value.clone()
}

/// Calls `serde_json::to_string_pretty`. Printing a tree into a string cannot
/// fail, and the text depends on what the tree holds alone. Reading the text
/// gives the tree back, where it is not nested too deeply to be read; of numbers
/// with a fraction or an exponent, which may come back rounded, nothing is said.
#[verifier::external_body]
pub(crate) fn json_print(value: &serde_json::Value) -> (r: Result<String, serde_json::Error>)
    ensures
        r is Ok,
        r->Ok_0@ == json_pretty(json_tree(*value)),
        is_readable(json_tree(*value), NESTING_LIMIT as nat) ==> json_parsed(r->Ok_0@) == Some(
            json_tree(*value),
        ),
{
    serde_json::to_string_pretty(value)
}

/// Adds a member to the members of an object that is being built.
pub(crate) fn add_member(
    members: &mut Vec<(String, serde_json::Value)>,
    name: &str,
    value: serde_json::Value,
)
    ensures
        json_members(final(members)@) == json_members(old(members)@).push((name@, json_tree(value))),
{
    let ghost before = json_members(members@);
    members.push((name.to_owned(), value));
    assert(json_members(members@) =~= before.push((name@, json_tree(value))));
}

/// A JSON string for a text.
pub(crate) fn text_value(text: &str) -> (r: serde_json::Value)
    ensures
        json_tree(r) == Json::Text(text@),
{
    json_string(text.to_owned())
}

} // verus!
