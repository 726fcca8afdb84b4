//! The Iceberg `metadata.json` document.
//!
//! The members of the document have the kebab-case names of the Iceberg table
//! format. Only what the changelog companion table needs is there.
use vstd::prelude::*;

use crate::json::{json_clone, json_tree, json_trees, Json};
use crate::string_map::StringMap;
use crate::table::{copy_text, text_of, DataField};
use crate::text::{escape, escaped, i64_text, int_text};
use crate::types::{from_paimon_field, iceberg_field, row_fits, type_fits};

verus! {

/// The first id given to a partition field.
pub const PARTITION_FIRST_FIELD_ID: i32 = 1000;

// ---------------------------------------------------------------------------
// Columns and schemas
// ---------------------------------------------------------------------------

/// What an [`IcebergDataField`] holds.
#[verifier::ext_equal]
pub struct IcebergDataFieldView {
    pub id: i32,
    pub name: Seq<char>,
    pub required: bool,
    pub type_val: Json,
    pub doc: Option<Seq<char>>,
}

/// A single column in an Iceberg schema, including its Iceberg type.
#[derive(Debug, PartialEq)]
pub struct IcebergDataField {
    pub id: i32,
    pub name: String,
    pub required: bool,
    /// An Iceberg type name (such as `"int"`, `"long"` or `"string"`), or a
    /// nested object for lists, maps and structs.
    pub type_val: serde_json::Value,
    pub doc: Option<String>,
}

impl View for IcebergDataField {
    type V = IcebergDataFieldView;

    open spec fn view(&self) -> IcebergDataFieldView {
        IcebergDataFieldView {
            id: self.id,
            name: self.name@,
            required: self.required,
            type_val: json_tree(self.type_val),
            doc: text_of(self.doc),
        }
    }
}

impl Clone for IcebergDataField {
    fn clone(&self) -> (r: Self)
        ensures
            r@ == self@,
    {
        IcebergDataField {
            id: self.id,
            name: self.name.clone(),
            required: self.required,
            type_val: json_clone(&self.type_val),
            doc: copy_text(&self.doc),
        }
    }
}

impl IcebergDataField {
    /// Builds the column for a Paimon column, converting its type.
    pub fn from_paimon(field: &DataField) -> (r: Self)
        requires
            type_fits(field.data_type, field.id, 0),
        ensures
            r@ == iceberg_field(*field),
    {
        from_paimon_field(field)
    }

    /// Builds a column of a primitive type.
    pub fn primitive(id: i32, name: &str, type_str: &str, nullable: bool) -> (r: Self)
        ensures
            r@ == primitive_field(id, name@, type_str@, nullable),
    {
        IcebergDataField {
            id,
            name: name.to_owned(),
            required: !nullable,
            type_val: crate::json::text_value(type_str),
            doc: None,
        }
    }

    /// The column with the given documentation.
    pub fn with_doc(self, doc: &str) -> (r: Self)
        ensures
            r@ == (IcebergDataFieldView { doc: Some(doc@), ..self@ }),
    {
        IcebergDataField { doc: Some(doc.to_owned()), ..self }
    }
}

/// A column of a primitive type, without documentation.
pub open spec fn primitive_field(
    id: i32,
    name: Seq<char>,
    primitive: Seq<char>,
    nullable: bool,
) -> IcebergDataFieldView {
    IcebergDataFieldView {
        id,
        name,
        required: !nullable,
        type_val: Json::Text(primitive),
        doc: None,
    }
}

/// What each column of a sequence holds.
pub open spec fn field_views(fields: Seq<IcebergDataField>) -> Seq<IcebergDataFieldView> {
    Seq::new(fields.len(), |i: int| fields[i]@)
}

/// The Iceberg columns for a sequence of Paimon columns.
pub open spec fn iceberg_fields(fields: Seq<DataField>) -> Seq<IcebergDataFieldView> {
    Seq::new(fields.len(), |i: int| iceberg_field(fields[i]))
}

/// The greatest of the ids of some columns, and 0 where there is no column.
pub open spec fn highest_id(fields: Seq<IcebergDataFieldView>) -> i32
    decreases fields.len(),
{
    if fields.len() == 0 {
        0
    } else if fields.len() == 1 || highest_id(fields.drop_last()) < fields.last().id {
        fields.last().id
    } else {
        highest_id(fields.drop_last())
    }
}

/// No column has an id above the highest, and where there is a column one has
/// just that id.
pub proof fn highest_id_is_attained(fields: Seq<IcebergDataFieldView>)
    ensures
        forall|i: int| 0 <= i < fields.len() ==> (#[trigger] fields[i]).id <= highest_id(fields),
        fields.len() > 0 ==> exists|i: int|
            0 <= i < fields.len() && (#[trigger] fields[i]).id == highest_id(fields),
    decreases fields.len(),
{
    if fields.len() > 0 {
        let rest = fields.drop_last();
        highest_id_is_attained(rest);
        assert forall|i: int| 0 <= i < fields.len() implies (#[trigger] fields[i]).id
            <= highest_id(fields) by {
            if i < rest.len() {
                assert(rest[i].id <= highest_id(rest));
            }
        }
        if highest_id(fields) == fields.last().id {
            assert(fields[fields.len() - 1].id == highest_id(fields));
        } else {
            let k = choose|k: int|
                0 <= k < rest.len() && (#[trigger] rest[k]).id == highest_id(rest);
            assert(fields[k].id == highest_id(fields));
        }
    }
}

/// What an [`IcebergSchema`] holds.
#[verifier::ext_equal]
pub struct IcebergSchemaView {
    pub type_val: Seq<char>,
    pub schema_id: i32,
    pub fields: Seq<IcebergDataFieldView>,
}

/// An Iceberg schema.
#[derive(Debug, Clone, PartialEq)]
pub struct IcebergSchema {
    pub type_val: String,
    pub schema_id: i32,
    pub fields: Vec<IcebergDataField>,
}

impl View for IcebergSchema {
    type V = IcebergSchemaView;

    open spec fn view(&self) -> IcebergSchemaView {
        IcebergSchemaView {
            type_val: self.type_val@,
            schema_id: self.schema_id,
            fields: field_views(self.fields@),
        }
    }
}

/// A schema with the given id and columns.
pub open spec fn struct_schema(
    schema_id: i32,
    fields: Seq<IcebergDataFieldView>,
) -> IcebergSchemaView {
    IcebergSchemaView { type_val: "struct"@, schema_id, fields }
}

impl IcebergSchema {
    /// Builds a schema from its columns.
    pub fn from_fields(schema_id: i32, fields: Vec<IcebergDataField>) -> (r: Self)
        ensures
            r@ == struct_schema(schema_id, field_views(fields@)),
    {
        IcebergSchema { type_val: "struct".to_owned(), schema_id, fields }
    }

    /// Builds a schema from the columns of a Paimon table.
    pub fn from_paimon_fields(schema_id: i32, paimon_fields: &[DataField]) -> (r: Self)
        requires
            row_fits(paimon_fields@),
        ensures
            r@ == struct_schema(schema_id, iceberg_fields(paimon_fields@)),
    {
        let mut fields: Vec<IcebergDataField> = Vec::new();
        let mut i: usize = 0;
        while i < paimon_fields.len()
            invariant
                row_fits(paimon_fields@),
                i <= paimon_fields.len(),
                fields@.len() == i,
                forall|k: int|
                    0 <= k < i ==> (#[trigger] fields@[k])@ == iceberg_field(paimon_fields@[k]),
            decreases paimon_fields.len() - i,
        {
            assert(type_fits(
                paimon_fields@[i as int].data_type,
                paimon_fields@[i as int].id,
                0,
            ));
            fields.push(IcebergDataField::from_paimon(&paimon_fields[i]));
            i = i + 1;
        }
        assert(field_views(fields@) =~= iceberg_fields(paimon_fields@));
        Self::from_fields(schema_id, fields)
    }

    /// The greatest id among the columns, and 0 where there is no column.
    pub fn highest_field_id(&self) -> (r: i32)
        ensures
            r == highest_id(self@.fields),
    {
        let ghost views = self@.fields;
        let mut highest: i32 = 0;
        let mut i: usize = 0;
        assert(views.take(0) =~= Seq::empty());
        while i < self.fields.len()
            invariant
                i <= self.fields.len(),
                views == field_views(self.fields@),
                highest == highest_id(views.take(i as int)),
            decreases self.fields.len() - i,
        {
            assert(views.take(i + 1).drop_last() =~= views.take(i as int));
            assert(views.take(i + 1).last() == self.fields@[i as int]@);
            let id: i32 = self.fields[i].id;
            if i == 0 || highest < id {
                highest = id;
            }
            i = i + 1;
        }
        assert(views.take(views.len() as int) =~= views);
        highest
    }
}

// ---------------------------------------------------------------------------
// Partitions and sort orders
// ---------------------------------------------------------------------------

/// What an [`IcebergPartitionField`] holds.
#[verifier::ext_equal]
pub struct IcebergPartitionFieldView {
    pub name: Seq<char>,
    pub transform: Seq<char>,
    pub source_id: i32,
    pub field_id: i32,
}

/// One partition field in an Iceberg partition spec.
#[derive(Debug, Clone, PartialEq)]
pub struct IcebergPartitionField {
    pub name: String,
    pub transform: String,
    pub source_id: i32,
    pub field_id: i32,
}

impl View for IcebergPartitionField {
    type V = IcebergPartitionFieldView;

    open spec fn view(&self) -> IcebergPartitionFieldView {
        IcebergPartitionFieldView {
            name: self.name@,
            transform: self.transform@,
            source_id: self.source_id,
            field_id: self.field_id,
        }
    }
}

/// A partition field that takes the values of its source column as they are.
pub open spec fn identity_field(
    name: Seq<char>,
    source_id: i32,
    field_id: i32,
) -> IcebergPartitionFieldView {
    IcebergPartitionFieldView { name, transform: "identity"@, source_id, field_id }
}

impl IcebergPartitionField {
    /// Builds a partition field that takes the values of its source column as
    /// they are.
    pub fn identity(name: &str, source_id: i32, field_id: i32) -> (r: Self)
        ensures
            r@ == identity_field(name@, source_id, field_id),
    {
        IcebergPartitionField {
            name: name.to_owned(),
            transform: "identity".to_owned(),
            source_id,
            field_id,
        }
    }
}

/// What each partition field of a sequence holds.
pub open spec fn partition_field_views(fields: Seq<IcebergPartitionField>) -> Seq<
    IcebergPartitionFieldView,
> {
    Seq::new(fields.len(), |i: int| fields[i]@)
}

/// The greatest id among some partition fields, and the one before the first
/// partition id where there is no field.
pub open spec fn highest_partition_id(fields: Seq<IcebergPartitionFieldView>) -> i32
    decreases fields.len(),
{
    if fields.len() == 0 {
        (PARTITION_FIRST_FIELD_ID - 1) as i32
    } else if fields.len() == 1 || highest_partition_id(fields.drop_last())
        < fields.last().field_id {
        fields.last().field_id
    } else {
        highest_partition_id(fields.drop_last())
    }
}

/// What an [`IcebergPartitionSpec`] holds.
#[verifier::ext_equal]
pub struct IcebergPartitionSpecView {
    pub spec_id: i32,
    pub fields: Seq<IcebergPartitionFieldView>,
}

/// An Iceberg partition spec. A Paimon table has one, with the id 0.
#[derive(Debug, Clone, PartialEq)]
pub struct IcebergPartitionSpec {
    pub spec_id: i32,
    pub fields: Vec<IcebergPartitionField>,
}

impl View for IcebergPartitionSpec {
    type V = IcebergPartitionSpecView;

    open spec fn view(&self) -> IcebergPartitionSpecView {
        IcebergPartitionSpecView {
            spec_id: self.spec_id,
            fields: partition_field_views(self.fields@),
        }
    }
}

impl IcebergPartitionSpec {
    /// Builds the partition spec with the given fields.
    pub fn new(fields: Vec<IcebergPartitionField>) -> (r: Self)
        ensures
            r@ == (IcebergPartitionSpecView {
                spec_id: 0,
                fields: partition_field_views(fields@),
            }),
    {
        IcebergPartitionSpec { spec_id: 0, fields }
    }
}

/// What an [`IcebergSortOrder`] holds.
#[verifier::ext_equal]
pub struct IcebergSortOrderView {
    pub order_id: i32,
    pub fields: Seq<Json>,
}

/// An Iceberg sort order. A Paimon table has the unsorted one.
#[derive(Debug, Clone, PartialEq)]
pub struct IcebergSortOrder {
    pub order_id: i32,
    pub fields: Vec<serde_json::Value>,
}

impl View for IcebergSortOrder {
    type V = IcebergSortOrderView;

    open spec fn view(&self) -> IcebergSortOrderView {
        IcebergSortOrderView { order_id: self.order_id, fields: json_trees(self.fields@) }
    }
}

/// The unsorted order: id 0 and no fields.
pub open spec fn unsorted() -> IcebergSortOrderView {
    IcebergSortOrderView { order_id: 0, fields: Seq::empty() }
}

impl Default for IcebergSortOrder {
    fn default() -> (r: Self)
        ensures
            r@ == unsorted(),
    {
        let r = IcebergSortOrder { order_id: 0, fields: Vec::new() };
        assert(r@.fields =~= Seq::empty());
        r
    }
}

// ---------------------------------------------------------------------------
// Snapshots
// ---------------------------------------------------------------------------

/// The summary of an Iceberg snapshot, a plain JSON object.
#[derive(Debug, Clone, PartialEq)]
pub struct IcebergSnapshotSummary(pub StringMap);

/// The summary of a snapshot that appends files.
pub open spec fn append_summary() -> Seq<(Seq<char>, Seq<char>)> {
    seq![("operation"@, "append"@)]
}

impl IcebergSnapshotSummary {
    /// The summary of a snapshot that appends files.
    pub fn append() -> (r: Self)
        ensures
            r.0@ == append_summary(),
    {
        let map = StringMap::new();
        let ghost before = map@;
        assert(!crate::string_map::has_key(before, "operation"@));
        let map = map.insert("operation", "append".to_owned());
        assert(map@ =~= append_summary());
        IcebergSnapshotSummary(map)
    }
}

/// What an [`IcebergSnapshot`] holds.
#[verifier::ext_equal]
pub struct IcebergSnapshotView {
    pub sequence_number: i64,
    pub snapshot_id: i64,
    pub parent_snapshot_id: Option<i64>,
    pub timestamp_ms: u64,
    pub summary: Seq<(Seq<char>, Seq<char>)>,
    pub manifest_list: Seq<char>,
    pub schema_id: i32,
    pub first_row_id: Option<i64>,
    pub added_rows: Option<i64>,
}

/// One snapshot of an Iceberg table.
#[derive(Debug, Clone, PartialEq)]
pub struct IcebergSnapshot {
    pub sequence_number: i64,
    pub snapshot_id: i64,
    pub parent_snapshot_id: Option<i64>,
    pub timestamp_ms: u64,
    pub summary: StringMap,
    pub manifest_list: String,
    pub schema_id: i32,
    pub first_row_id: Option<i64>,
    pub added_rows: Option<i64>,
}

impl View for IcebergSnapshot {
    type V = IcebergSnapshotView;

    open spec fn view(&self) -> IcebergSnapshotView {
        IcebergSnapshotView {
            sequence_number: self.sequence_number,
            snapshot_id: self.snapshot_id,
            parent_snapshot_id: self.parent_snapshot_id,
            timestamp_ms: self.timestamp_ms,
            summary: self.summary@,
            manifest_list: self.manifest_list@,
            schema_id: self.schema_id,
            first_row_id: self.first_row_id,
            added_rows: self.added_rows,
        }
    }
}

// ---------------------------------------------------------------------------
// The document
// ---------------------------------------------------------------------------

/// What an [`IcebergMetadata`] holds.
#[verifier::ext_equal]
pub struct IcebergMetadataView {
    pub format_version: i32,
    pub table_uuid: Seq<char>,
    pub location: Seq<char>,
    pub last_sequence_number: i64,
    pub last_updated_ms: u64,
    pub last_column_id: i32,
    pub schemas: Seq<IcebergSchemaView>,
    pub current_schema_id: i32,
    pub partition_specs: Seq<IcebergPartitionSpecView>,
    pub default_spec_id: i32,
    pub last_partition_id: i32,
    pub sort_orders: Seq<IcebergSortOrderView>,
    pub default_sort_order_id: i32,
    pub snapshots: Seq<IcebergSnapshotView>,
    pub current_snapshot_id: i64,
    pub properties: Seq<(Seq<char>, Seq<char>)>,
}

/// The top-level `metadata.json` document.
#[derive(Debug, Clone)]
pub struct IcebergMetadata {
    pub format_version: i32,
    pub table_uuid: String,
    pub location: String,
    pub last_sequence_number: i64,
    pub last_updated_ms: u64,
    pub last_column_id: i32,
    pub schemas: Vec<IcebergSchema>,
    pub current_schema_id: i32,
    pub partition_specs: Vec<IcebergPartitionSpec>,
    pub default_spec_id: i32,
    pub last_partition_id: i32,
    pub sort_orders: Vec<IcebergSortOrder>,
    pub default_sort_order_id: i32,
    pub snapshots: Vec<IcebergSnapshot>,
    pub current_snapshot_id: i64,
    pub properties: StringMap,
}

impl View for IcebergMetadata {
    type V = IcebergMetadataView;

    open spec fn view(&self) -> IcebergMetadataView {
        IcebergMetadataView {
            format_version: self.format_version,
            table_uuid: self.table_uuid@,
            location: self.location@,
            last_sequence_number: self.last_sequence_number,
            last_updated_ms: self.last_updated_ms,
            last_column_id: self.last_column_id,
            schemas: Seq::new(self.schemas@.len(), |i: int| self.schemas@[i]@),
            current_schema_id: self.current_schema_id,
            partition_specs: Seq::new(
                self.partition_specs@.len(),
                |i: int| self.partition_specs@[i]@,
            ),
            default_spec_id: self.default_spec_id,
            last_partition_id: self.last_partition_id,
            sort_orders: Seq::new(self.sort_orders@.len(), |i: int| self.sort_orders@[i]@),
            default_sort_order_id: self.default_sort_order_id,
            snapshots: Seq::new(self.snapshots@.len(), |i: int| self.snapshots@[i]@),
            current_snapshot_id: self.current_snapshot_id,
            properties: self.properties@,
        }
    }
}

/// The upper-case form of a text, as `str::to_uppercase` gives it.
pub uninterp spec fn uppercase(text: Seq<char>) -> Seq<char>;

/// Calls `str::to_uppercase`, whose result depends on the text alone.
#[verifier::external_body]
fn to_uppercase(text: &str) -> (r: String)
    ensures
        r@ == uppercase(text@),
{
    text.to_uppercase()
}

/// The entry of the name mapping for one column: the names under which data
/// files may hold it, which are its own name and its upper-case form, each as a
/// JSON string.
pub open spec fn name_mapping_entry(
    id: i32,
    name: Seq<char>,
    upper: Seq<char>,
) -> Seq<char> {
    if upper != name {
        "{\"field-id\":"@ + int_text(id as int) + ",\"names\":[\""@ + escaped(name) + "\",\""@
            + escaped(upper) + "\"]}"@
    } else {
        "{\"field-id\":"@ + int_text(id as int) + ",\"names\":[\""@ + escaped(name) + "\"]}"@
    }
}

/// The entries of the name mapping for some columns, separated by commas.
pub open spec fn name_mapping_entries(fields: Seq<IcebergDataFieldView>) -> Seq<char>
    decreases fields.len(),
{
    if fields.len() == 0 {
        Seq::empty()
    } else {
        let entry = name_mapping_entry(
            fields.last().id,
            fields.last().name,
            uppercase(fields.last().name),
        );
        if fields.len() == 1 {
            entry
        } else {
            name_mapping_entries(fields.drop_last()) + ","@ + entry
        }
    }
}

/// The name mapping of a schema: a JSON array with one entry per column.
pub open spec fn name_mapping(fields: Seq<IcebergDataFieldView>) -> Seq<char> {
    "["@ + name_mapping_entries(fields) + "]"@
}

/// The entry of the name mapping for one column, given the upper-case form of
/// its name.
pub fn name_mapping_entry_text(id: i32, name: &String, upper: &String) -> (r: String)
    ensures
        r@ == name_mapping_entry(id, name@, upper@),
{
    let mut text = "{\"field-id\":".to_owned();
    text.append(i64_text(id as i64).as_str());
    text.append(",\"names\":[\"");
    text.append(escape(name.as_str()).as_str());
    if *upper == *name {
        text.append("\"]}");
    } else {
        text.append("\",\"");
        text.append(escape(upper.as_str()).as_str());
        text.append("\"]}");
    }
    text
}

/// The name mapping of a schema.
///
/// Changelog data files carry no Iceberg column ids, so readers resolve their
/// columns by name through this mapping. The two columns that Paimon adds are
/// upper case in the files, hence the second name.
pub fn name_mapping_text(fields: &Vec<IcebergDataField>) -> (r: String)
    ensures
        r@ == name_mapping(field_views(fields@)),
{
    let ghost views = field_views(fields@);
    let mut text = "[".to_owned();
    let mut i: usize = 0;
    assert(views.take(0) =~= Seq::empty());
    assert(text@ =~= "["@ + name_mapping_entries(views.take(0)));
    while i < fields.len()
        invariant
            i <= fields.len(),
            views == field_views(fields@),
            text@ == "["@ + name_mapping_entries(views.take(i as int)),
        decreases fields.len() - i,
    {
        let ghost before = views.take(i as int);
        let ghost after = views.take(i + 1);
        assert(after.drop_last() =~= before);
        assert(after.last() == fields@[i as int]@);
        if i > 0 {
            text.append(",");
        }
        let upper = to_uppercase(fields[i].name.as_str());
        let entry = name_mapping_entry_text(fields[i].id, &fields[i].name, &upper);
        text.append(entry.as_str());
        assert(text@ =~= "["@ + name_mapping_entries(after));
        i = i + 1;
    }
    assert(views.take(views.len() as int) =~= views);
    text.append("]");
    text
}

/// The document for the changelog companion table at one snapshot.
pub open spec fn changelog_metadata(
    format_version: i32,
    table_uuid: Seq<char>,
    table_location: Seq<char>,
    snapshot_id: i64,
    base_schema: IcebergSchemaView,
    changelog_schema: IcebergSchemaView,
    partition_fields: Seq<IcebergPartitionFieldView>,
    manifest_list_path: Seq<char>,
    timestamp_ms: u64,
) -> IcebergMetadataView {
    IcebergMetadataView {
        format_version,
        table_uuid,
        location: table_location,
        last_sequence_number: snapshot_id,
        last_updated_ms: timestamp_ms,
        last_column_id: highest_id(changelog_schema.fields),
        schemas: seq![changelog_schema],
        current_schema_id: base_schema.schema_id,
        partition_specs: seq![IcebergPartitionSpecView { spec_id: 0, fields: partition_fields }],
        default_spec_id: 0,
        last_partition_id: highest_partition_id(partition_fields),
        sort_orders: seq![unsorted()],
        default_sort_order_id: 0,
        snapshots: seq![
            IcebergSnapshotView {
                sequence_number: snapshot_id,
                snapshot_id,
                parent_snapshot_id: None,
                timestamp_ms,
                summary: append_summary(),
                manifest_list: manifest_list_path,
                schema_id: base_schema.schema_id,
                first_row_id: None,
                added_rows: None,
            },
        ],
        current_snapshot_id: snapshot_id,
        properties: seq![
            ("schema.name-mapping.default"@, name_mapping(changelog_schema.fields)),
        ],
    }
}

/// The greatest id among some partition fields.
fn last_partition_id(fields: &Vec<IcebergPartitionField>) -> (r: i32)
    ensures
        r == highest_partition_id(partition_field_views(fields@)),
{
    let ghost views = partition_field_views(fields@);
    let mut highest: i32 = PARTITION_FIRST_FIELD_ID - 1;
    let mut i: usize = 0;
    assert(views.take(0) =~= Seq::empty());
    while i < fields.len()
        invariant
            i <= fields.len(),
            views == partition_field_views(fields@),
            highest == highest_partition_id(views.take(i as int)),
        decreases fields.len() - i,
    {
        assert(views.take(i + 1).drop_last() =~= views.take(i as int));
        assert(views.take(i + 1).last() == fields@[i as int]@);
        let id: i32 = fields[i].field_id;
        if i == 0 || highest < id {
            highest = id;
        }
        i = i + 1;
    }
    assert(views.take(views.len() as int) =~= views);
    highest
}

impl IcebergMetadata {
    /// Builds the document for the changelog companion table.
    ///
    /// - `format_version`: the Iceberg format version, 2 or 3.
    /// - `table_uuid`: the stable id of the companion table.
    /// - `table_location`: the path of the Paimon table itself.
    /// - `snapshot_id`: the Paimon snapshot id, which is the Iceberg sequence
    ///   number too.
    /// - `base_schema`: the schema of the user's columns.
    /// - `changelog_schema`: `base_schema` with the two changelog columns.
    /// - `partition_fields`: the fields for the table's partition keys.
    /// - `manifest_list_path`: the manifest list of the snapshot.
    pub fn new_changelog(
        format_version: i32,
        table_uuid: String,
        table_location: String,
        snapshot_id: i64,
        base_schema: &IcebergSchema,
        changelog_schema: IcebergSchema,
        partition_fields: Vec<IcebergPartitionField>,
        manifest_list_path: String,
        timestamp_ms: u64,
    ) -> (r: Self)
        ensures
            r@ == changelog_metadata(
                format_version,
                table_uuid@,
                table_location@,
                snapshot_id,
                base_schema@,
                changelog_schema@,
                partition_field_views(partition_fields@),
                manifest_list_path@,
                timestamp_ms,
            ),
    {
        let current_schema_id: i32 = base_schema.schema_id;
        let last_column_id: i32 = changelog_schema.highest_field_id();
        let last_partition_id: i32 = last_partition_id(&partition_fields);
        let IcebergSnapshotSummary(summary) = IcebergSnapshotSummary::append();
        let snapshot = IcebergSnapshot {
            sequence_number: snapshot_id,
            snapshot_id,
            parent_snapshot_id: None,
            timestamp_ms,
            summary,
            manifest_list: manifest_list_path,
            schema_id: current_schema_id,
            first_row_id: None,
            added_rows: None,
        };
        let mapping = name_mapping_text(&changelog_schema.fields);
        let properties = StringMap::new();
        assert(!crate::string_map::has_key(properties@, "schema.name-mapping.default"@));
        let properties = properties.insert("schema.name-mapping.default", mapping);
        let ghost schema_view = changelog_schema@;
        let ghost partition_views = partition_field_views(partition_fields@);
        let mut schemas: Vec<IcebergSchema> = Vec::new();
        schemas.push(changelog_schema);
        let mut partition_specs: Vec<IcebergPartitionSpec> = Vec::new();
        partition_specs.push(IcebergPartitionSpec::new(partition_fields));
        let mut sort_orders: Vec<IcebergSortOrder> = Vec::new();
        sort_orders.push(IcebergSortOrder::default());
        let mut snapshots: Vec<IcebergSnapshot> = Vec::new();
        snapshots.push(snapshot);
        let r = IcebergMetadata {
            format_version,
            table_uuid,
            location: table_location,
            last_sequence_number: snapshot_id,
            last_updated_ms: timestamp_ms,
            last_column_id,
            schemas,
            current_schema_id,
            partition_specs,
            default_spec_id: 0,
            last_partition_id,
            sort_orders,
            default_sort_order_id: 0,
            snapshots,
            current_snapshot_id: snapshot_id,
            properties,
        };
        assert(r@.schemas =~= seq![schema_view]);
        assert(r@.partition_specs =~= seq![
            IcebergPartitionSpecView { spec_id: 0, fields: partition_views },
        ]);
        assert(r@.sort_orders =~= seq![unsorted()]);
        assert(r@.snapshots.len() == 1);
        assert(r@.properties =~= seq![
            ("schema.name-mapping.default"@, name_mapping(schema_view.fields)),
        ]);
        r
    }
}

/// No partition field has an id above the highest, and where there is a field
/// one has just that id.
pub proof fn highest_partition_id_is_attained(fields: Seq<IcebergPartitionFieldView>)
    ensures
        forall|i: int|
            0 <= i < fields.len() ==> (#[trigger] fields[i]).field_id <= highest_partition_id(
                fields,
            ),
        fields.len() > 0 ==> exists|i: int|
            0 <= i < fields.len() && (#[trigger] fields[i]).field_id == highest_partition_id(
                fields,
            ),
    decreases fields.len(),
{
    if fields.len() > 0 {
        let rest = fields.drop_last();
        highest_partition_id_is_attained(rest);
        assert forall|i: int| 0 <= i < fields.len() implies (#[trigger] fields[i]).field_id
            <= highest_partition_id(fields) by {
            if i < rest.len() {
                assert(rest[i].field_id <= highest_partition_id(rest));
            }
        }
        if fields.last().field_id == highest_partition_id(fields) {
            assert(fields[fields.len() - 1].field_id == highest_partition_id(fields));
        } else {
            let k = choose|k: int|
                0 <= k < rest.len() && (#[trigger] rest[k]).field_id == highest_partition_id(rest);
            assert(fields[k].field_id == highest_partition_id(fields));
        }
    }
}

/// A changelog document refers to what it has: its current schema, its current
/// snapshot, its default spec and its default sort order are among its schemas,
/// snapshots, specs and sort orders, the snapshot has the current schema, and
/// no column and no partition field has an id above the last one. The snapshot
/// has the time of the document and the given manifest list and id, and the
/// document has the given columns and partition fields.
pub proof fn changelog_documents_are_coherent(
    format_version: i32,
    table_uuid: Seq<char>,
    table_location: Seq<char>,
    snapshot_id: i64,
    base_schema: IcebergSchemaView,
    changelog_schema: IcebergSchemaView,
    partition_fields: Seq<IcebergPartitionFieldView>,
    manifest_list_path: Seq<char>,
    timestamp_ms: u64,
)
    requires
        changelog_schema.schema_id == base_schema.schema_id,
    ensures
        ({
            let metadata = changelog_metadata(
                format_version,
                table_uuid,
                table_location,
                snapshot_id,
                base_schema,
                changelog_schema,
                partition_fields,
                manifest_list_path,
                timestamp_ms,
            );
            &&& metadata.schemas.len() == 1
            &&& metadata.schemas[0].schema_id == metadata.current_schema_id
            &&& metadata.snapshots.len() == 1
            &&& metadata.snapshots[0].snapshot_id == metadata.current_snapshot_id
            &&& metadata.snapshots[0].schema_id == metadata.current_schema_id
            &&& metadata.snapshots[0].sequence_number == metadata.last_sequence_number
            &&& metadata.partition_specs.len() == 1
            &&& metadata.partition_specs[0].spec_id == metadata.default_spec_id
            &&& metadata.sort_orders.len() == 1
            &&& metadata.sort_orders[0].order_id == metadata.default_sort_order_id
            &&& forall|i: int|
                0 <= i < metadata.schemas[0].fields.len() ==> (
                #[trigger] metadata.schemas[0].fields[i]).id <= metadata.last_column_id
            &&& forall|i: int|
                0 <= i < metadata.partition_specs[0].fields.len() ==> (
                #[trigger] metadata.partition_specs[0].fields[i]).field_id
                    <= metadata.last_partition_id
            &&& metadata.snapshots[0].timestamp_ms == timestamp_ms
            &&& metadata.last_updated_ms == timestamp_ms
            &&& metadata.snapshots[0].manifest_list == manifest_list_path
            &&& metadata.current_snapshot_id == snapshot_id
            &&& metadata.last_sequence_number == snapshot_id
            &&& metadata.current_schema_id == changelog_schema.schema_id
            &&& metadata.schemas[0].fields == changelog_schema.fields
            &&& metadata.partition_specs[0].fields == partition_fields
        }),
{
    highest_id_is_attained(changelog_schema.fields);
    highest_partition_id_is_attained(partition_fields);
}

} // verus!
