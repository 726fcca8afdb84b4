//! Where the files of a companion table stand.
use vstd::prelude::*;

use crate::changelog_commit_callback::changelog_metadata_dir;
use crate::path_factory::{manifest_file, manifest_list_file, metadata_file, version_hint_file};
use crate::text::{
    all_digits, decimal_denotes, decimal_value, int_text, parsed_i64, printed_integers_parse,
};
use crate::write::table_manifest_path;

verus! {

/// The id of a snapshot can be read off the path of its document, which is
/// `v`, the id and `.metadata.json` in the metadata directory.
pub proof fn a_document_is_named_by_its_snapshot(dir: Seq<char>, snapshot_id: i64)
    ensures
        ({
            let path = metadata_file(dir, snapshot_id);
            &&& path.take(dir.len() as int) == dir
            &&& path.subrange(dir.len() as int, 2 + dir.len() as int) == "/v"@
            &&& path.len() > dir.len() + 16
            &&& path.skip(path.len() - 14) == ".metadata.json"@
            &&& parsed_i64(path.subrange(2 + dir.len() as int, path.len() - 14)) == Some(
                snapshot_id,
            )
        }),
{
    reveal_strlit("/v");
    reveal_strlit(".metadata.json");
    let path = metadata_file(dir, snapshot_id);
    let digits = int_text(snapshot_id as int);
    printed_integers_parse(snapshot_id);
    assert(path.take(dir.len() as int) =~= dir);
    assert(path.subrange(dir.len() as int, 2 + dir.len() as int) =~= "/v"@);
    assert(path.skip(path.len() - 14) =~= ".metadata.json"@);
    assert(path.subrange(2 + dir.len() as int, path.len() - 14) =~= digits);
    assert(parsed_i64(Seq::empty()) is None);
    if digits.len() == 0 {
        assert(digits =~= Seq::empty());
    }
}

/// The version hint stands in the metadata directory under a fixed name.
pub proof fn the_hint_has_a_fixed_name(dir: Seq<char>)
    ensures
        version_hint_file(dir).take(dir.len() as int) == dir,
        version_hint_file(dir).skip(dir.len() as int) == "/version-hint.text"@,
{
    assert(version_hint_file(dir).take(dir.len() as int) =~= dir);
    assert(version_hint_file(dir).skip(dir.len() as int) =~= "/version-hint.text"@);
}

/// A manifest list is named `snap-`, its number, a hyphen and the UUID of its
/// run, in the metadata directory.
pub proof fn a_manifest_list_is_named_by_its_number(dir: Seq<char>, uuid: Seq<char>, count: nat)
    ensures
        exists|digits: Seq<char>|
            {
                &&& digits.len() > 0
                &&& all_digits(digits)
                &&& decimal_value(digits) == count
                &&& manifest_list_file(dir, uuid, count as int) == #[trigger] (dir + "/snap-"@
                    + digits) + "-"@ + uuid + ".avro"@
            },
{
    let digits = int_text(count as int);
    decimal_denotes(count);
    assert(manifest_list_file(dir, uuid, count as int) == (dir + "/snap-"@ + digits) + "-"@ + uuid
        + ".avro"@);
}

/// A manifest is named by the UUID of its run, `-m` and its number, in the
/// metadata directory.
pub proof fn a_manifest_is_named_by_its_number(dir: Seq<char>, uuid: Seq<char>, count: nat)
    ensures
        exists|digits: Seq<char>|
            {
                &&& digits.len() > 0
                &&& all_digits(digits)
                &&& decimal_value(digits) == count
                &&& manifest_file(dir, uuid, count as int) == #[trigger] (dir + "/"@ + uuid + "-m"@
                    + digits) + ".avro"@
            },
{
    let digits = int_text(count as int);
    decimal_denotes(count);
    assert(manifest_file(dir, uuid, count as int) == (dir + "/"@ + uuid + "-m"@ + digits)
        + ".avro"@);
}

/// A manifest of the table itself stands in the table's `manifest` directory
/// under its own name.
pub proof fn a_tables_manifest_has_its_own_name(table: Seq<char>, name: Seq<char>)
    ensures
        table_manifest_path(table, name).len() == table.len() + 10 + name.len(),
        table_manifest_path(table, name).take(table.len() as int) == table,
        table_manifest_path(table, name).subrange(table.len() as int, 10 + table.len() as int)
            == "/manifest/"@,
        table_manifest_path(table, name).skip(10 + table.len() as int) == name,
{
    reveal_strlit("/manifest/");
    let path = table_manifest_path(table, name);
    assert(path.len() == table.len() + 10 + name.len());
    assert(path.take(table.len() as int) =~= table);
    assert(path.subrange(table.len() as int, 10 + table.len() as int) =~= "/manifest/"@);
    assert(path.skip(10 + table.len() as int) =~= name);
}

/// The companion table of a table stands beside it: its metadata directory is
/// the table's location with a fixed ending.
pub proof fn the_companion_stands_beside_its_table(location: Seq<char>)
    ensures
        changelog_metadata_dir(location).take(location.len() as int) == location,
        changelog_metadata_dir(location).skip(location.len() as int) == "_changelog/metadata"@,
{
    assert(changelog_metadata_dir(location).take(location.len() as int) =~= location);
    assert(changelog_metadata_dir(location).skip(location.len() as int)
        =~= "_changelog/metadata"@);
}

} // verus!
