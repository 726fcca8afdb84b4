//! What a changelog is made of: rows, columns, partition fields.
use vstd::prelude::*;

use crate::changelog::{
    added_entries, base_schema, changelog_schema, manifest_summary, partition_fields,
    partition_ids_fit, row_count, rows_fit, schema_fits, source_id, summary_of_rows,
};
use crate::json::Json;
use crate::manifest::IcebergManifestEntryView;
use crate::metadata::{highest_id, IcebergDataFieldView, IcebergSchemaView};
use crate::table::{text_of, texts_of, FileKind, ManifestEntryView, TableSchema};
use crate::text::{int_text, parsed_i64, printed_integers_parse};
use crate::types::{iceberg_type, row_fits};

verus! {

// ---------------------------------------------------------------------------
// Rows
// ---------------------------------------------------------------------------

/// Whether a row stands for a file that a snapshot added: it carries the file's
/// own numbers and path and the snapshot's id, and no statistics.
pub open spec fn stands_for(
    row: IcebergManifestEntryView,
    table: Seq<char>,
    snapshot_id: i64,
    entry: ManifestEntryView,
) -> bool {
    &&& row.data_file.file_size_in_bytes == entry.file.file_size
    &&& row.data_file.record_count == entry.file.row_count
    &&& row.data_file.file_format == "parquet"@
    &&& row.data_file.content == 0
    &&& row.status == 1
    &&& row.snapshot_id == Some(snapshot_id)
    &&& row.sequence_number == Some(snapshot_id)
    &&& row.file_sequence_number == Some(snapshot_id)
    &&& match entry.file.external_path {
        Some(path) => row.data_file.file_path == path,
        None => exists|bucket: Seq<char>|
            {
                &&& parsed_i64(bucket) == Some(entry.bucket as i64)
                &&& row.data_file.file_path == #[trigger] (table + "/bucket-"@ + bucket) + "/"@
                    + entry.file.file_name
            },
    }
    &&& row.data_file.null_value_counts is None
    &&& row.data_file.lower_bounds is None
    &&& row.data_file.upper_bounds is None
    &&& row.data_file.referenced_data_file is None
    &&& row.data_file.content_offset is None
    &&& row.data_file.content_size_in_bytes is None
}

/// The row for one added file carries the file's size, its number of rows and
/// its path, and the id of the snapshot.
pub proof fn a_row_stands_for_its_file(
    table: Seq<char>,
    snapshot_id: i64,
    entry: ManifestEntryView,
)
    requires
        entry.kind == FileKind::Add,
    ensures
        added_entries(table, snapshot_id, seq![entry]).len() == 1,
        stands_for(
            added_entries(table, snapshot_id, seq![entry])[0],
            table,
            snapshot_id,
            entry,
        ),
{
    let entries = seq![entry];
    reveal_with_fuel(added_entries, 2);
    assert(entries.drop_last() =~= Seq::empty());
    assert(entries.last() == entry);
    let row = added_entries(table, snapshot_id, entries)[0];
    if entry.file.external_path is None {
        let bucket = int_text(entry.bucket as int);
        printed_integers_parse(entry.bucket as i64);
        assert(row.data_file.file_path == (table + "/bucket-"@ + bucket) + "/"@
            + entry.file.file_name);
    }
}

/// An entry that adds no file has no row.
pub proof fn other_entries_have_no_row(
    table: Seq<char>,
    snapshot_id: i64,
    entry: ManifestEntryView,
)
    requires
        entry.kind != FileKind::Add,
    ensures
        added_entries(table, snapshot_id, seq![entry]).len() == 0,
{
    reveal_with_fuel(added_entries, 2);
    assert(seq![entry].drop_last() =~= Seq::empty());
}

/// Manifests are collected one after the other: the rows of two lists of entries
/// are the rows of the first followed by the rows of the second.
pub proof fn rows_follow_their_entries(
    table: Seq<char>,
    snapshot_id: i64,
    a: Seq<ManifestEntryView>,
    b: Seq<ManifestEntryView>,
)
    ensures
        added_entries(table, snapshot_id, a + b) == added_entries(table, snapshot_id, a)
            + added_entries(table, snapshot_id, b),
    decreases b.len(),
{
    if b.len() == 0 {
        assert(a + b =~= a);
        assert(added_entries(table, snapshot_id, a) + added_entries(table, snapshot_id, b)
            =~= added_entries(table, snapshot_id, a));
    } else {
        rows_follow_their_entries(table, snapshot_id, a, b.drop_last());
        assert((a + b).drop_last() =~= a + b.drop_last());
        assert((a + b).last() == b.last());
        assert(added_entries(table, snapshot_id, a + b) =~= added_entries(table, snapshot_id, a)
            + added_entries(table, snapshot_id, b));
    }
}

/// The row of an added file stands right after the rows of the entries before
/// it, and stands for that file.
pub proof fn each_added_file_has_its_row(
    table: Seq<char>,
    snapshot_id: i64,
    entries: Seq<ManifestEntryView>,
    k: int,
)
    requires
        0 <= k < entries.len(),
        entries[k].kind == FileKind::Add,
    ensures
        added_entries(table, snapshot_id, entries.take(k)).len() < added_entries(
            table,
            snapshot_id,
            entries,
        ).len(),
        stands_for(
            added_entries(
                table,
                snapshot_id,
                entries,
            )[added_entries(table, snapshot_id, entries.take(k)).len() as int],
            table,
            snapshot_id,
            entries[k],
        ),
{
    let before = entries.take(k);
    let after = entries.skip(k + 1);
    let one = seq![entries[k]];
    assert(entries =~= (before + one) + after);
    rows_follow_their_entries(table, snapshot_id, before + one, after);
    rows_follow_their_entries(table, snapshot_id, before, one);
    a_row_stands_for_its_file(table, snapshot_id, entries[k]);
}

/// The number of rows in some files is the sum of those in its parts, and of one
/// file it is the file's own.
pub proof fn rows_add_up(
    a: Seq<IcebergManifestEntryView>,
    b: Seq<IcebergManifestEntryView>,
    entry: IcebergManifestEntryView,
)
    ensures
        row_count(Seq::empty()) == 0,
        row_count(seq![entry]) == entry.data_file.record_count,
        row_count(a + b) == row_count(a) + row_count(b),
    decreases b.len(),
{
    reveal_with_fuel(row_count, 2);
    assert(seq![entry].drop_last() =~= Seq::empty());
    if b.len() == 0 {
        assert(a + b =~= a);
    } else {
        rows_add_up(a, b.drop_last(), entry);
        assert((a + b).drop_last() =~= a + b.drop_last());
        assert((a + b).last() == b.last());
    }
}

/// Files without negative counts can be counted just where their total has 64
/// bits.
pub proof fn totals_decide_whether_rows_fit(entries: Seq<IcebergManifestEntryView>)
    requires
        forall|i: int|
            0 <= i < entries.len() ==> (#[trigger] entries[i]).data_file.record_count >= 0,
    ensures
        rows_fit(entries) <==> row_count(entries) <= 0x7fff_ffff_ffff_ffff,
{
    assert(entries.take(entries.len() as int) =~= entries);
    assert forall|n: int| 0 <= n <= entries.len() implies 0 <= row_count(
        #[trigger] entries.take(n),
    ) <= row_count(entries) by {
        let rest = entries.skip(n);
        assert(entries =~= entries.take(n) + rest);
        if entries.len() > 0 {
            rows_add_up(entries.take(n), rest, entries[0]);
        }
        counts_are_not_negative(entries.take(n));
        counts_are_not_negative(rest);
    }
}

/// The rows of some files can be counted one file after the other just where
/// 64 bits can hold each sum on the way.
pub proof fn sums_decide_whether_rows_fit(
    entries: Seq<IcebergManifestEntryView>,
    entry: IcebergManifestEntryView,
)
    ensures
        rows_fit(Seq::empty()),
        rows_fit(entries.push(entry)) <==> {
            &&& rows_fit(entries)
            &&& -0x8000_0000_0000_0000 <= row_count(entries) + entry.data_file.record_count
                <= 0x7fff_ffff_ffff_ffff
        },
{
    let more = entries.push(entry);
    assert forall|n: int| 0 <= n <= entries.len() implies #[trigger] more.take(n)
        =~= entries.take(n) by {}
    assert(more.take(more.len() as int) =~= more);
    assert(more.drop_last() =~= entries);
    let nothing = Seq::<IcebergManifestEntryView>::empty();
    assert forall|n: int| 0 <= n <= 0 implies row_count(#[trigger] nothing.take(n)) == 0 by {}
    if rows_fit(more) {
        assert forall|n: int| 0 <= n <= entries.len() implies i64::MIN <= row_count(
            #[trigger] entries.take(n),
        ) <= i64::MAX by {
            assert(more.take(n) =~= entries.take(n));
        }
    }
}

/// Counts that are not negative add up to one that is not.
proof fn counts_are_not_negative(entries: Seq<IcebergManifestEntryView>)
    requires
        forall|i: int|
            0 <= i < entries.len() ==> (#[trigger] entries[i]).data_file.record_count >= 0,
    ensures
        row_count(entries) >= 0,
    decreases entries.len(),
{
    if entries.len() > 0 {
        let rest = entries.drop_last();
        assert forall|i: int| 0 <= i < rest.len() implies (
        #[trigger] rest[i]).data_file.record_count >= 0 by {
            assert(rest[i] == entries[i]);
        }
        counts_are_not_negative(rest);
        assert(entries[entries.len() - 1].data_file.record_count >= 0);
    }
}

/// The summary of a manifest carries the manifest's path and length, the
/// snapshot's id, and the numbers of added files and rows. Nothing else is
/// counted.
pub proof fn a_summary_carries_its_numbers(
    path: Seq<char>,
    length: nat,
    snapshot_id: i64,
    entries: Seq<IcebergManifestEntryView>,
)
    requires
        length <= 0x7fff_ffff_ffff_ffff,
        entries.len() <= 0x7fff_ffff,
        rows_fit(entries),
    ensures
        ({
            let summary = summary_of_rows(path, length, snapshot_id, entries);
            &&& summary.manifest_path == path
            &&& summary.manifest_length == length
            &&& summary.added_files_count == entries.len()
            &&& summary.added_rows_count == row_count(entries)
            &&& summary.sequence_number == snapshot_id
            &&& summary.min_sequence_number == snapshot_id
            &&& summary.added_snapshot_id == Some(snapshot_id)
            &&& summary.content == 0
            &&& summary.partition_spec_id == 0
            &&& summary.existing_files_count == 0
            &&& summary.deleted_files_count == 0
            &&& summary.existing_rows_count == 0
            &&& summary.deleted_rows_count == 0
            &&& summary.partitions is None
        }),
{
    assert(entries.take(entries.len() as int) =~= entries);
}

/// A summary is made of the numbers that it is given.
pub proof fn summaries_are_made_of_their_numbers(
    path: Seq<char>,
    length: nat,
    snapshot_id: i64,
    files: nat,
    rows: i64,
)
    requires
        length <= 0x7fff_ffff_ffff_ffff,
        files <= 0x7fff_ffff,
    ensures
        ({
            let summary = manifest_summary(path, length, snapshot_id, files, rows);
            &&& summary.manifest_path == path
            &&& summary.manifest_length == length
            &&& summary.added_files_count == files
            &&& summary.added_rows_count == rows
            &&& summary.sequence_number == snapshot_id
            &&& summary.min_sequence_number == snapshot_id
            &&& summary.added_snapshot_id == Some(snapshot_id)
        }),
{
}

/// Of a length or a number of files that is too large for its field the low bits
/// are kept.
pub proof fn large_numbers_keep_their_low_bits(
    path: Seq<char>,
    length: usize,
    snapshot_id: i64,
    files: usize,
    rows: i64,
)
    ensures
        ({
            let summary = manifest_summary(path, length as nat, snapshot_id, files as nat, rows);
            &&& (summary.manifest_length - length) % 0x1_0000_0000_0000_0000 == 0
            &&& (summary.added_files_count - files) % 0x1_0000_0000 == 0
        }),
{
    assert(((length as i64) - length) % 0x1_0000_0000_0000_0000 == 0) by (bit_vector);
    assert(((files as i32) - files) % 0x1_0000_0000 == 0) by (bit_vector);
}

// ---------------------------------------------------------------------------
// Columns
// ---------------------------------------------------------------------------

/// The columns of a changelog's base schema are the table's columns, one by one:
/// each has the id, the name, the nullability and the description of the table's
/// column.
pub proof fn columns_stand_for_the_tables_columns(table_schema: TableSchema, i: int)
    requires
        0 <= i < table_schema.fields@.len(),
    ensures
        ({
            let column = base_schema(table_schema).fields[i];
            let field = table_schema.fields@[i];
            &&& base_schema(table_schema).fields.len() == table_schema.fields@.len()
            &&& column.id == field.id
            &&& column.name == field.name@
            &&& column.required != field.data_type.nullable
            &&& column.doc == text_of(field.description)
            &&& column.type_val == iceberg_type(field.data_type, field.id, 0)
        }),
{
}

/// The base schema is a struct with the id of the table's schema, cut to 32 bits
/// where it has more.
pub proof fn the_base_schema_has_the_tables_id(table_schema: TableSchema)
    ensures
        base_schema(table_schema).type_val == "struct"@,
        -0x8000_0000 <= table_schema.id <= 0x7fff_ffff ==> base_schema(table_schema).schema_id
            == table_schema.id,
        (base_schema(table_schema).schema_id - table_schema.id) % 0x1_0000_0000 == 0,
{
    let id = table_schema.id;
    assert((id as i32 - id) % 0x1_0000_0000 == 0) by (bit_vector);
}

/// The two columns that a changelog adds: a nullable `int` and a nullable `long`
/// with the next two ids, after the columns of the table.
pub proof fn a_changelog_tells_kinds_and_sequence_numbers(base: IcebergSchemaView)
    requires
        highest_id(base.fields) <= 0x7fff_fffd,
    ensures
        ({
            let n = base.fields.len() as int;
            let schema = changelog_schema(base);
            let kind = schema.fields[n];
            let sequence = schema.fields[n + 1];
            &&& schema.type_val == "struct"@
            &&& schema.schema_id == base.schema_id
            &&& schema.fields.len() == n + 2
            &&& forall|i: int| 0 <= i < n ==> #[trigger] schema.fields[i] == base.fields[i]
            &&& kind.name == "_value_kind"@
            &&& kind.type_val == Json::Text("int"@)
            &&& !kind.required
            &&& kind.id == highest_id(base.fields) + 1
            &&& kind.doc == Some(
                "Paimon change type: 0=INSERT, 1=UPDATE_BEFORE, 2=UPDATE_AFTER, 3=DELETE"@,
            )
            &&& sequence.name == "_sequence_number"@
            &&& sequence.type_val == Json::Text("long"@)
            &&& !sequence.required
            &&& sequence.id == highest_id(base.fields) + 2
            &&& sequence.doc == Some(
                "Paimon sequence number, monotonically increasing within a checkpoint"@,
            )
        }),
{
}

/// A table has a changelog just where the ids inside its columns fit in 32 bits,
/// two more ids fit after the highest, and so do the ids of the partition
/// fields.
pub proof fn room_for_ids_decides_whether_a_schema_fits(table_schema: TableSchema)
    ensures
        schema_fits(table_schema) <==> {
            &&& row_fits(table_schema.fields@)
            &&& highest_id(base_schema(table_schema).fields) <= 0x7fff_fffd
            &&& 1000 + partition_fields(
                texts_of(table_schema.partition_keys@),
                base_schema(table_schema).fields,
            ).len() <= 0x7fff_ffff
        },
{
}

// ---------------------------------------------------------------------------
// Partition fields
// ---------------------------------------------------------------------------

/// The source of a name is the last column that has it, and a name that no
/// column has has no source.
pub proof fn the_source_is_the_last_column_of_the_name(
    fields: Seq<IcebergDataFieldView>,
    name: Seq<char>,
)
    ensures
        match source_id(fields, name) {
            Some(id) => exists|c: int|
                {
                    &&& 0 <= c < fields.len()
                    &&& (#[trigger] fields[c]).name == name
                    &&& fields[c].id == id
                    &&& forall|d: int| c < d < fields.len() ==> (#[trigger] fields[d]).name != name
                },
            None => forall|c: int| 0 <= c < fields.len() ==> (#[trigger] fields[c]).name != name,
        },
    decreases fields.len(),
{
    if fields.len() > 0 {
        let last = fields.len() - 1;
        if fields.last().name == name {
            assert(fields[last].name == name);
        } else {
            let rest = fields.drop_last();
            the_source_is_the_last_column_of_the_name(rest, name);
            if source_id(rest, name) is Some {
                let c = choose|c: int|
                    {
                        &&& 0 <= c < rest.len()
                        &&& (#[trigger] rest[c]).name == name
                        &&& Some(rest[c].id) == source_id(rest, name)
                        &&& forall|d: int| c < d < rest.len() ==> (#[trigger] rest[d]).name != name
                    };
                assert(fields[c] == rest[c]);
                assert forall|d: int| c < d < fields.len() implies (#[trigger] fields[d]).name
                    != name by {
                    if d < rest.len() {
                        assert(fields[d] == rest[d]);
                    }
                }
            } else {
                assert forall|c: int| 0 <= c < fields.len() implies (#[trigger] fields[c]).name
                    != name by {
                    if c < rest.len() {
                        assert(fields[c] == rest[c]);
                    }
                }
            }
        }
    }
}

/// One more key adds one field where it names a column, and none where it does
/// not. The field takes the column's values as they are, under the key's name,
/// and is numbered from 1000 on. Earlier fields stay as they are.
pub proof fn each_key_has_its_partition_field(
    keys: Seq<Seq<char>>,
    key: Seq<char>,
    fields: Seq<IcebergDataFieldView>,
)
    requires
        partition_ids_fit(partition_fields(keys.push(key), fields)),
    ensures
        partition_fields(Seq::empty(), fields).len() == 0,
        ({
            let before = partition_fields(keys, fields);
            let after = partition_fields(keys.push(key), fields);
            &&& forall|i: int| 0 <= i < before.len() ==> #[trigger] after[i] == before[i]
            &&& match source_id(fields, key) {
                Some(id) => {
                    &&& after.len() == before.len() + 1
                    &&& after.last().name == key
                    &&& after.last().transform == "identity"@
                    &&& after.last().source_id == id
                    &&& after.last().field_id == 1000 + before.len()
                },
                None => after.len() == before.len(),
            }
        }),
{
    assert(keys.push(key).drop_last() =~= keys);
}

} // verus!
