//! The Iceberg changelog of a Paimon table: the schemas, partition fields and
//! manifest rows that are derived from the table.
use vstd::prelude::*;

use crate::manifest::{
    entry_views, IcebergDataFileMeta, IcebergDataFileMetaView, IcebergManifestEntry,
    IcebergManifestEntryView, IcebergManifestFileMeta, IcebergManifestFileMetaView,
    IcebergPartitionStruct,
};
use crate::metadata::{
    field_views, highest_id, highest_id_is_attained, iceberg_fields, identity_field,
    partition_field_views, primitive_field, struct_schema, IcebergDataField, IcebergDataFieldView,
    IcebergPartitionField, IcebergPartitionFieldView, IcebergSchema, IcebergSchemaView,
    PARTITION_FIRST_FIELD_ID,
};
use crate::table::{
    manifest_entry_views, texts_of, FileKind, ManifestEntry, ManifestEntryView, TableSchema,
};
use crate::text::{i64_text, int_text};
use crate::types::{fields_are_convertible, row_fits};

verus! {

// ---------------------------------------------------------------------------
// Schemas
// ---------------------------------------------------------------------------

/// The schema of a table's own columns. Iceberg schema ids have 32 bits: of a
/// longer id the low 32 bits are kept.
pub open spec fn base_schema(table_schema: TableSchema) -> IcebergSchemaView {
    struct_schema(
        #[verifier::truncate]
        (table_schema.id as i32),
        iceberg_fields(table_schema.fields@),
    )
}

/// The column that says what kind of change a row is.
pub open spec fn value_kind_field(id: i32) -> IcebergDataFieldView {
    IcebergDataFieldView {
        doc: Some("Paimon change type: 0=INSERT, 1=UPDATE_BEFORE, 2=UPDATE_AFTER, 3=DELETE"@),
        ..primitive_field(id, "_value_kind"@, "int"@, true)
    }
}

/// The column that orders the changes of a checkpoint.
pub open spec fn sequence_number_field(id: i32) -> IcebergDataFieldView {
    IcebergDataFieldView {
        doc: Some("Paimon sequence number, monotonically increasing within a checkpoint"@),
        ..primitive_field(id, "_sequence_number"@, "long"@, true)
    }
}

/// A schema followed by the two columns of a changelog, which have the next
/// two ids.
pub open spec fn changelog_schema(base: IcebergSchemaView) -> IcebergSchemaView {
    let highest = highest_id(base.fields);
    struct_schema(
        base.schema_id,
        base.fields.push(value_kind_field((highest + 1) as i32)).push(
            sequence_number_field((highest + 2) as i32),
        ),
    )
}

/// The id of the last column with the given name.
pub open spec fn source_id(fields: Seq<IcebergDataFieldView>, name: Seq<char>) -> Option<i32>
    decreases fields.len(),
{
    if fields.len() == 0 {
        None
    } else if fields.last().name == name {
        Some(fields.last().id)
    } else {
        source_id(fields.drop_last(), name)
    }
}

/// One partition field for each key that names a column, with consecutive ids.
pub open spec fn partition_fields(
    keys: Seq<Seq<char>>,
    fields: Seq<IcebergDataFieldView>,
) -> Seq<IcebergPartitionFieldView>
    decreases keys.len(),
{
    if keys.len() == 0 {
        Seq::empty()
    } else {
        let rest = partition_fields(keys.drop_last(), fields);
        match source_id(fields, keys.last()) {
            Some(id) => rest.push(
                identity_field(keys.last(), id, (PARTITION_FIRST_FIELD_ID + rest.len()) as i32),
            ),
            None => rest,
        }
    }
}

/// Whether the ids of some partition fields, and the one after them, fit in 32
/// bits.
pub open spec fn partition_ids_fit(fields: Seq<IcebergPartitionFieldView>) -> bool {
    PARTITION_FIRST_FIELD_ID + fields.len() <= i32::MAX
}

/// Whether every id that a changelog of the table needs can be computed in 32
/// bits.
pub open spec fn schema_fits(table_schema: TableSchema) -> bool {
    &&& row_fits(table_schema.fields@)
    &&& highest_id(base_schema(table_schema).fields) + 2 <= i32::MAX
    &&& partition_ids_fit(
        partition_fields(texts_of(table_schema.partition_keys@), base_schema(table_schema).fields),
    )
}

/// Finds the id of the last column with the given name.
fn find_source_id(fields: &Vec<IcebergDataField>, name: &String) -> (r: Option<i32>)
    ensures
        r == source_id(field_views(fields@), name@),
{
    let ghost views = field_views(fields@);
    let mut i: usize = fields.len();
    assert(views.take(i as int) =~= views);
    while i > 0
        invariant
            i <= fields.len(),
            views == field_views(fields@),
            source_id(views, name@) == source_id(views.take(i as int), name@),
        decreases i,
    {
        let ghost front = views.take(i as int);
        assert(front.drop_last() =~= views.take(i - 1));
        assert(front.last() == fields@[i - 1]@);
        if fields[i - 1].name == *name {
            return Some(fields[i - 1].id);
        }
        i = i - 1;
    }
    None
}

/// Builds the schema of a table's own columns.
pub fn build_base_schema(table_schema: &TableSchema) -> (r: IcebergSchema)
    requires
        row_fits(table_schema.fields@),
    ensures
        r@ == base_schema(*table_schema),
{
    let schema_id: i32 =
        #[verifier::truncate]
        (table_schema.id as i32);
    IcebergSchema::from_paimon_fields(schema_id, table_schema.fields.as_slice())
}

/// Appends `_value_kind` and `_sequence_number` to a schema.
pub fn build_changelog_schema(base: &IcebergSchema) -> (r: IcebergSchema)
    requires
        highest_id(base@.fields) + 2 <= i32::MAX,
    ensures
        r@ == changelog_schema(base@),
{
    let highest: i32 = base.highest_field_id();
    let ghost before = base@.fields;
    let mut fields: Vec<IcebergDataField> = Vec::new();
    let mut i: usize = 0;
    while i < base.fields.len()
        invariant
            i <= base.fields.len(),
            fields@.len() == i,
            forall|k: int| 0 <= k < i ==> (#[trigger] fields@[k])@ == base.fields@[k]@,
        decreases base.fields.len() - i,
    {
        fields.push(base.fields[i].clone());
        i = i + 1;
    }
    assert(field_views(fields@) =~= before);
    let value_kind = IcebergDataField::primitive(highest + 1, "_value_kind", "int", true).with_doc(
        "Paimon change type: 0=INSERT, 1=UPDATE_BEFORE, 2=UPDATE_AFTER, 3=DELETE",
    );
    fields.push(value_kind);
    assert(field_views(fields@) =~= before.push(value_kind_field((highest + 1) as i32)));
    let sequence_number = IcebergDataField::primitive(
        highest + 2,
        "_sequence_number",
        "long",
        true,
    ).with_doc("Paimon sequence number, monotonically increasing within a checkpoint");
    fields.push(sequence_number);
    assert(field_views(fields@) =~= changelog_schema(base@).fields);
    IcebergSchema::from_fields(base.schema_id, fields)
}

/// Counts the partition keys that name a column.
fn count_partition_fields(table_schema: &TableSchema, schema: &IcebergSchema) -> (r: usize)
    ensures
        r == partition_fields(texts_of(table_schema.partition_keys@), schema@.fields).len(),
{
    let ghost keys = texts_of(table_schema.partition_keys@);
    let mut count: usize = 0;
    let mut i: usize = 0;
    assert(keys.take(0) =~= Seq::empty());
    while i < table_schema.partition_keys.len()
        invariant
            count <= i <= table_schema.partition_keys.len(),
            keys == texts_of(table_schema.partition_keys@),
            count == partition_fields(keys.take(i as int), schema@.fields).len(),
        decreases table_schema.partition_keys.len() - i,
    {
        let ghost next = keys.take(i + 1);
        assert(next.drop_last() =~= keys.take(i as int));
        assert(next.last() == table_schema.partition_keys@[i as int]@);
        if find_source_id(&schema.fields, &table_schema.partition_keys[i]).is_some() {
            count = count + 1;
        }
        i = i + 1;
    }
    assert(keys.take(i as int) =~= keys);
    count
}

/// Maps the partition keys of a table to Iceberg partition fields.
pub fn build_partition_fields(table_schema: &TableSchema, schema: &IcebergSchema) -> (r: Vec<
    IcebergPartitionField,
>)
    requires
        partition_ids_fit(
            partition_fields(texts_of(table_schema.partition_keys@), schema@.fields),
        ),
    ensures
        partition_field_views(r@) == partition_fields(
            texts_of(table_schema.partition_keys@),
            schema@.fields,
        ),
{
    let ghost keys = texts_of(table_schema.partition_keys@);
    let mut result: Vec<IcebergPartitionField> = Vec::new();
    let mut field_id: i32 = PARTITION_FIRST_FIELD_ID;
    let mut i: usize = 0;
    assert(keys.take(0) =~= Seq::empty());
    assert(partition_field_views(result@) =~= Seq::empty());
    while i < table_schema.partition_keys.len()
        invariant
            i <= table_schema.partition_keys.len(),
            keys == texts_of(table_schema.partition_keys@),
            partition_ids_fit(partition_fields(keys, schema@.fields)),
            partition_field_views(result@) == partition_fields(
                keys.take(i as int),
                schema@.fields,
            ),
            field_id == PARTITION_FIRST_FIELD_ID + result@.len(),
        decreases table_schema.partition_keys.len() - i,
    {
        let ghost next = keys.take(i + 1);
        let ghost before = partition_field_views(result@);
        assert(next.drop_last() =~= keys.take(i as int));
        assert(next.last() == table_schema.partition_keys@[i as int]@);
        proof {
            fewer_keys_fewer_fields(keys, i + 1, schema@.fields);
        }
        let key = &table_schema.partition_keys[i];
        if let Some(source) = find_source_id(&schema.fields, key) {
            result.push(IcebergPartitionField::identity(key.as_str(), source, field_id));
            assert(partition_field_views(result@) =~= before.push(
                identity_field(key@, source, field_id),
            ));
            field_id = field_id + 1;
        }
        i = i + 1;
    }
    assert(keys.take(i as int) =~= keys);
    result
}

/// The first keys have at most as many partition fields as all of them.
proof fn fewer_keys_fewer_fields(
    keys: Seq<Seq<char>>,
    count: int,
    fields: Seq<IcebergDataFieldView>,
)
    requires
        0 <= count <= keys.len(),
    ensures
        partition_fields(keys.take(count), fields).len() <= partition_fields(keys, fields).len(),
    decreases keys.len(),
{
    if count == keys.len() {
        assert(keys.take(count) =~= keys);
    } else {
        fewer_keys_fewer_fields(keys.drop_last(), count, fields);
        assert(keys.drop_last().take(count) =~= keys.take(count));
    }
}

/// Tests whether every id that a changelog of the table needs can be computed
/// in 32 bits.
pub fn schema_is_convertible(table_schema: &TableSchema) -> (r: bool)
    ensures
        r == schema_fits(*table_schema),
{
    if !fields_are_convertible(&table_schema.fields) {
        return false;
    }
    let base = build_base_schema(table_schema);
    let count: usize = count_partition_fields(table_schema, &base);
    base.highest_field_id() <= i32::MAX - 2 && count <= (i32::MAX - PARTITION_FIRST_FIELD_ID)
        as usize
}

/// The columns of a changelog are the table's own columns, unchanged, and two
/// more, whose ids no other column has.
pub proof fn changelog_columns_are_new(base: IcebergSchemaView)
    requires
        highest_id(base.fields) + 2 <= i32::MAX,
    ensures
        changelog_schema(base).fields.len() == base.fields.len() + 2,
        changelog_schema(base).fields.take(base.fields.len() as int) == base.fields,
        forall|i: int|
            0 <= i < base.fields.len() ==> (#[trigger] base.fields[i]).id
                < changelog_schema(base).fields[base.fields.len() as int].id
                < changelog_schema(base).fields[base.fields.len() as int + 1].id,
        highest_id(changelog_schema(base).fields) == highest_id(base.fields) + 2,
{
    let fields = changelog_schema(base).fields;
    highest_id_is_attained(base.fields);
    highest_id_is_attained(fields);
    assert(fields.take(base.fields.len() as int) =~= base.fields);
    let last = fields[base.fields.len() as int + 1];
    assert(last.id == highest_id(base.fields) + 2);
    let at = choose|i: int| 0 <= i < fields.len() && (#[trigger] fields[i]).id == highest_id(fields);
    if at < base.fields.len() {
        assert(fields[at] == base.fields[at]);
    }
}

/// Partition fields have consecutive ids, and each takes its values from a
/// column that has its name.
pub proof fn partition_fields_are_numbered(
    keys: Seq<Seq<char>>,
    fields: Seq<IcebergDataFieldView>,
    i: int,
)
    requires
        partition_ids_fit(partition_fields(keys, fields)),
        0 <= i < partition_fields(keys, fields).len(),
    ensures
        partition_fields(keys, fields)[i].field_id == PARTITION_FIRST_FIELD_ID + i,
        keys.contains(partition_fields(keys, fields)[i].name),
        exists|k: int|
            0 <= k < fields.len() && (#[trigger] fields[k]).name == partition_fields(
                keys,
                fields,
            )[i].name && fields[k].id == partition_fields(keys, fields)[i].source_id,
    decreases keys.len(),
{
    let all = partition_fields(keys, fields);
    let rest = partition_fields(keys.drop_last(), fields);
    if i < rest.len() {
        partition_fields_are_numbered(keys.drop_last(), fields, i);
        assert(all[i] == rest[i]);
        let k = keys.drop_last().index_of(all[i].name);
        assert(keys[k] == all[i].name);
    } else {
        assert(all[i].name == keys.last());
        source_is_a_column(fields, keys.last());
    }
}

/// The source of a name is a column with that name.
proof fn source_is_a_column(fields: Seq<IcebergDataFieldView>, name: Seq<char>)
    requires
        source_id(fields, name) is Some,
    ensures
        exists|k: int|
            0 <= k < fields.len() && (#[trigger] fields[k]).name == name && Some(fields[k].id)
                == source_id(fields, name),
    decreases fields.len(),
{
    if fields.last().name == name {
        assert(fields[fields.len() - 1].name == name);
    } else {
        source_is_a_column(fields.drop_last(), name);
        let k = choose|k: int|
            0 <= k < fields.drop_last().len() && (#[trigger] fields.drop_last()[k]).name == name
                && Some(fields.drop_last()[k].id) == source_id(fields.drop_last(), name);
        assert(fields[k] == fields.drop_last()[k]);
    }
}

// ---------------------------------------------------------------------------
// Manifest rows
// ---------------------------------------------------------------------------

/// Where a data file lies: at its external path, or in the directory of its
/// bucket.
pub open spec fn data_file_path(table: Seq<char>, entry: ManifestEntryView) -> Seq<char> {
    match entry.file.external_path {
        Some(path) => path,
        None => table + "/bucket-"@ + int_text(entry.bucket as int) + "/"@ + entry.file.file_name,
    }
}

/// The row of an Iceberg manifest for a file that a snapshot added.
pub open spec fn added_entry(
    table: Seq<char>,
    snapshot_id: i64,
    entry: ManifestEntryView,
) -> IcebergManifestEntryView {
    IcebergManifestEntryView {
        status: 1,
        snapshot_id: Some(snapshot_id),
        sequence_number: Some(snapshot_id),
        file_sequence_number: Some(snapshot_id),
        data_file: IcebergDataFileMetaView {
            content: 0,
            file_path: data_file_path(table, entry),
            file_format: "parquet"@,
            record_count: entry.file.row_count,
            file_size_in_bytes: entry.file.file_size,
            null_value_counts: None,
            lower_bounds: None,
            upper_bounds: None,
            referenced_data_file: None,
            content_offset: None,
            content_size_in_bytes: None,
        },
    }
}

/// The rows for the files that a Paimon manifest adds. Its other entries have
/// none.
pub open spec fn added_entries(
    table: Seq<char>,
    snapshot_id: i64,
    entries: Seq<ManifestEntryView>,
) -> Seq<IcebergManifestEntryView>
    decreases entries.len(),
{
    if entries.len() == 0 {
        Seq::empty()
    } else {
        let rest = added_entries(table, snapshot_id, entries.drop_last());
        if entries.last().kind == FileKind::Add {
            rest.push(added_entry(table, snapshot_id, entries.last()))
        } else {
            rest
        }
    }
}

/// Builds the row of an Iceberg manifest for a file that a snapshot added.
fn build_entry(table: &String, snapshot_id: i64, entry: &ManifestEntry) -> (r: IcebergManifestEntry)
    ensures
        r@ == added_entry(table@, snapshot_id, entry@),
{
    let file_path = match &entry.file.external_path {
        Some(path) => path.clone(),
        None => {
            let mut path = table.clone();
            path.append("/bucket-");
            path.append(i64_text(entry.bucket as i64).as_str());
            path.append("/");
            path.append(entry.file.file_name.as_str());
            path
        },
    };
    IcebergManifestEntry {
        status: 1,
        snapshot_id: Some(snapshot_id),
        sequence_number: Some(snapshot_id),
        file_sequence_number: Some(snapshot_id),
        data_file: IcebergDataFileMeta {
            content: 0,
            file_path,
            file_format: "parquet".to_owned(),
            partition: IcebergPartitionStruct::default(),
            record_count: entry.file.row_count,
            file_size_in_bytes: entry.file.file_size,
            null_value_counts: None,
            lower_bounds: None,
            upper_bounds: None,
            referenced_data_file: None,
            content_offset: None,
            content_size_in_bytes: None,
        },
    }
}

/// Appends the rows for the files that a Paimon manifest adds.
pub fn collect_entries(
    table_location: &String,
    snapshot_id: i64,
    manifest: &Vec<ManifestEntry>,
    entries: &mut Vec<IcebergManifestEntry>,
)
    ensures
        entry_views(final(entries)@) == entry_views(old(entries)@) + added_entries(
            table_location@,
            snapshot_id,
            manifest_entry_views(manifest@),
        ),
{
    let ghost before = entry_views(entries@);
    let ghost views = manifest_entry_views(manifest@);
    let mut i: usize = 0;
    assert(views.take(0) =~= Seq::empty());
    assert(entry_views(entries@) =~= before + added_entries(
        table_location@,
        snapshot_id,
        views.take(0),
    ));
    while i < manifest.len()
        invariant
            i <= manifest.len(),
            views == manifest_entry_views(manifest@),
            entry_views(entries@) == before + added_entries(
                table_location@,
                snapshot_id,
                views.take(i as int),
            ),
        decreases manifest.len() - i,
    {
        let ghost now = entry_views(entries@);
        let ghost next = views.take(i + 1);
        assert(next.drop_last() =~= views.take(i as int));
        assert(next.last() == manifest@[i as int]@);
        if manifest[i].kind == FileKind::Add {
            let entry = build_entry(table_location, snapshot_id, &manifest[i]);
            entries.push(entry);
            assert(entry_views(entries@) =~= now.push(entry@));
            assert(now.push(entry@) =~= before + added_entries(table_location@, snapshot_id, next));
        }
        i = i + 1;
    }
    assert(views.take(i as int) =~= views);
}

/// Every row that a Paimon manifest gives rise to stands for one of the files
/// that the manifest adds.
pub proof fn only_added_files_are_collected(
    table: Seq<char>,
    snapshot_id: i64,
    entries: Seq<ManifestEntryView>,
    i: int,
)
    requires
        0 <= i < added_entries(table, snapshot_id, entries).len(),
    ensures
        exists|k: int|
            0 <= k < entries.len() && (#[trigger] entries[k]).kind == FileKind::Add
                && added_entries(table, snapshot_id, entries)[i] == added_entry(
                table,
                snapshot_id,
                entries[k],
            ),
    decreases entries.len(),
{
    let rest = entries.drop_last();
    let collected = added_entries(table, snapshot_id, rest);
    if i < collected.len() {
        only_added_files_are_collected(table, snapshot_id, rest, i);
        let k = choose|k: int|
            0 <= k < rest.len() && (#[trigger] rest[k]).kind == FileKind::Add && collected[i]
                == added_entry(table, snapshot_id, rest[k]);
        assert(entries[k] == rest[k]);
    } else {
        assert(entries[entries.len() - 1].kind == FileKind::Add);
    }
}

/// Every file that a Paimon manifest adds has its row.
pub proof fn every_added_file_is_collected(
    table: Seq<char>,
    snapshot_id: i64,
    entries: Seq<ManifestEntryView>,
    k: int,
)
    requires
        0 <= k < entries.len(),
        entries[k].kind == FileKind::Add,
    ensures
        added_entries(table, snapshot_id, entries).contains(
            added_entry(table, snapshot_id, entries[k]),
        ),
    decreases entries.len(),
{
    let rest = entries.drop_last();
    let all = added_entries(table, snapshot_id, entries);
    let row = added_entry(table, snapshot_id, entries[k]);
    if k < rest.len() {
        every_added_file_is_collected(table, snapshot_id, rest, k);
        assert(rest[k] == entries[k]);
        let at = added_entries(table, snapshot_id, rest).index_of(row);
        assert(all[at] == row);
    } else {
        assert(all.last() == row);
    }
}

/// The number of rows in the first files of a manifest.
pub open spec fn row_count(entries: Seq<IcebergManifestEntryView>) -> int
    decreases entries.len(),
{
    if entries.len() == 0 {
        0
    } else {
        row_count(entries.drop_last()) + entries.last().data_file.record_count
    }
}

/// Whether the rows of a manifest can be counted, file by file, in 64 bits.
pub open spec fn rows_fit(entries: Seq<IcebergManifestEntryView>) -> bool {
    forall|n: int|
        0 <= n <= entries.len() ==> i64::MIN <= row_count(#[trigger] entries.take(n)) <= i64::MAX
}

/// Counts the rows of a manifest, where that can be done in 64 bits.
pub fn total_rows(entries: &Vec<IcebergManifestEntry>) -> (r: Option<i64>)
    ensures
        r is Some <==> rows_fit(entry_views(entries@)),
        r matches Some(n) ==> n == row_count(entry_views(entries@)),
{
    let ghost views = entry_views(entries@);
    let mut total: i64 = 0;
    let mut i: usize = 0;
    assert(views.take(0) =~= Seq::empty());
    while i < entries.len()
        invariant
            i <= entries.len(),
            views == entry_views(entries@),
            total == row_count(views.take(i as int)),
            forall|n: int|
                0 <= n <= i ==> i64::MIN <= row_count(#[trigger] views.take(n)) <= i64::MAX,
        decreases entries.len() - i,
    {
        let ghost next = views.take(i + 1);
        assert(next.drop_last() =~= views.take(i as int));
        assert(next.last() == entries@[i as int]@);
        match total.checked_add(entries[i].data_file.record_count) {
            Some(sum) => {
                total = sum;
            },
            None => {
                return None;
            },
        }
        i = i + 1;
    }
    assert(views.take(i as int) =~= views);
    Some(total)
}

/// The row of a manifest list for the one manifest of a changelog, with a
/// number of files and a number of rows. Of a number of files that needs more,
/// the low 32 bits are kept.
pub open spec fn manifest_summary(
    path: Seq<char>,
    length: nat,
    snapshot_id: i64,
    files: nat,
    rows: i64,
) -> IcebergManifestFileMetaView {
    IcebergManifestFileMetaView {
        manifest_path: path,
        manifest_length: #[verifier::truncate]
        (length as i64),
        partition_spec_id: 0,
        content: 0,
        sequence_number: snapshot_id,
        min_sequence_number: snapshot_id,
        added_snapshot_id: Some(snapshot_id),
        added_files_count: #[verifier::truncate]
        (files as i32),
        existing_files_count: 0,
        deleted_files_count: 0,
        added_rows_count: rows,
        existing_rows_count: 0,
        deleted_rows_count: 0,
        partitions: None,
    }
}

/// The row of a manifest list for a manifest with the given rows.
pub open spec fn summary_of_rows(
    path: Seq<char>,
    length: nat,
    snapshot_id: i64,
    entries: Seq<IcebergManifestEntryView>,
) -> IcebergManifestFileMetaView {
    manifest_summary(path, length, snapshot_id, entries.len(), row_count(entries) as i64)
}

/// Builds the row of a manifest list for the one manifest of a changelog.
pub fn summarize_manifest(
    path: String,
    length: usize,
    snapshot_id: i64,
    files: usize,
    rows: i64,
) -> (r: IcebergManifestFileMeta)
    ensures
        r@ == manifest_summary(path@, length as nat, snapshot_id, files as nat, rows),
{
    IcebergManifestFileMeta {
        manifest_path: path,
        manifest_length:
            #[verifier::truncate]
            (length as i64),
        partition_spec_id: 0,
        content: 0,
        sequence_number: snapshot_id,
        min_sequence_number: snapshot_id,
        added_snapshot_id: Some(snapshot_id),
        added_files_count:
            #[verifier::truncate]
            (files as i32),
        existing_files_count: 0,
        deleted_files_count: 0,
        added_rows_count: rows,
        existing_rows_count: 0,
        deleted_rows_count: 0,
        partitions: None,
    }
}

} // verus!
