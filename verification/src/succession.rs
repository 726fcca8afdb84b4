//! What one run of the changelog writer leaves to the next.
//!
//! The laws here are about two runs for the same metadata directory, the second
//! of which finds the files that the first has left.
use vstd::prelude::*;
use vstd::utf8::{decode_utf8, encode_utf8, encode_utf8_decode_utf8, encode_utf8_valid_utf8};

use crate::document::{document_is_lossless, is_read_back, metadata_tree};
use crate::ids::is_random_uuid;
use crate::json::{json_parsed, json_pretty, NESTING_LIMIT};
use crate::metadata::IcebergMetadataView;
use crate::path_factory::{
    kinds_of_files_are_distinct, metadata_file, metadata_files_are_distinct, version_hint_file,
};
use crate::runs::{
    a_run_is_always_on_course, a_run_keeps_its_setting, a_run_writes_the_changelog,
    document_of_same_run, is_complete, is_document_with, is_history, is_on_course, leads_to,
    the_document_can_be_read, the_hint_is_read_back, wrote_list, Moment, TableFiles,
};
use crate::types::are_shallow;
use crate::write::{
    document_bytes, run_metadata, version_hint, ChangelogWriteView, IcebergChangelogWriterView,
    ReplyView, RequestView, StageView, StepView,
};

verus! {

/// Some files by path, after some more have been written.
pub open spec fn stored(
    files: Map<Seq<char>, Seq<u8>>,
    written: Seq<(Seq<char>, Seq<u8>)>,
) -> Map<Seq<char>, Seq<u8>>
    decreases written.len(),
{
    if written.len() == 0 {
        files
    } else {
        stored(files, written.drop_last()).insert(written.last().0, written.last().1)
    }
}

/// The contents of the file at a path, where there is one.
pub open spec fn found(files: Map<Seq<char>, Seq<u8>>, path: Seq<char>) -> Option<Seq<u8>> {
    if files.dom().contains(path) {
        Some(files[path])
    } else {
        None
    }
}

/// Whether a run is answered from the given files and from what it has written
/// since it began: it is told which files exist and what they hold, and of a
/// text that is a document it is told the document's table UUID.
pub open spec fn is_answered_from(files: Map<Seq<char>, Seq<u8>>, moment: Moment) -> bool {
    let present = stored(files, moment.run.written);
    match moment.step {
        StepView::Ask(RequestView::CheckExists { path }) => {
            moment.reply == ReplyView::Exists(found(present, path) is Some)
        },
        StepView::Ask(RequestView::ReadFile { path }) => {
            moment.reply == ReplyView::File(found(present, path))
        },
        StepView::Ask(RequestView::ReadTableUuid { document }) => {
            forall|metadata: IcebergMetadataView|
                json_parsed(document) == Some(#[trigger] metadata_tree(metadata)) ==> moment.reply
                    == ReplyView::TableUuid(Some(metadata.table_uuid))
        },
        _ => true,
    }
}

/// Whether a run is answered from the given files at every moment.
pub open spec fn is_run_on(files: Map<Seq<char>, Seq<u8>>, history: Seq<Moment>) -> bool {
    forall|i: int| 0 <= i < history.len() ==> is_answered_from(files, #[trigger] history[i])
}

/// The path of the manifest list of a complete run.
pub open spec fn list_path_of(run: ChangelogWriteView) -> Seq<char> {
    run.written[run.written.len() - 3].0
}

/// A file that is not written keeps its contents.
proof fn other_files_stay(
    files: Map<Seq<char>, Seq<u8>>,
    written: Seq<(Seq<char>, Seq<u8>)>,
    path: Seq<char>,
)
    requires
        forall|i: int| 0 <= i < written.len() ==> (#[trigger] written[i]).0 != path,
    ensures
        found(stored(files, written), path) == found(files, path),
    decreases written.len(),
{
    if written.len() > 0 {
        let rest = written.drop_last();
        assert forall|i: int| 0 <= i < rest.len() implies (#[trigger] rest[i]).0 != path by {
            assert(rest[i] == written[i]);
        }
        assert(written[written.len() - 1].0 != path);
        other_files_stay(files, rest, path);
    }
}

/// A manifest and a manifest list are neither the version hint nor a document.
proof fn early_files_are_others(
    writer: IcebergChangelogWriterView,
    run: ChangelogWriteView,
    files: Seq<(Seq<char>, Seq<u8>)>,
    id: i64,
)
    requires
        wrote_list(writer, run, files),
        is_random_uuid(writer.paths.uuid),
    ensures
        files.len() == 1 || files.len() == 2,
        forall|i: int|
            0 <= i < files.len() ==> (#[trigger] files[i]).0 != version_hint_file(
                writer.paths.metadata_dir,
            ) && files[i].0 != metadata_file(writer.paths.metadata_dir, id),
{
    kinds_of_files_are_distinct(
        writer.paths.metadata_dir,
        writer.paths.uuid,
        id,
        writer.paths.manifest_lists,
        writer.paths.manifests,
    );
    if files.len() == 2 {
        assert(files[0] == files.drop_last()[0]);
    }
}

/// What a complete run leaves: its document and the hint that leads to it, and
/// the documents of other snapshots as they were.
pub proof fn a_complete_run_leaves_hint_and_document(
    table: TableFiles,
    writer: IcebergChangelogWriterView,
    run: ChangelogWriteView,
    files: Map<Seq<char>, Seq<u8>>,
    other: i64,
)
    requires
        is_complete(table, writer, run),
        is_random_uuid(writer.paths.uuid),
        other != run.latest_id,
    ensures
        found(stored(files, run.written), version_hint_file(writer.paths.metadata_dir)) == Some(
            version_hint(run.latest_id),
        ),
        found(
            stored(files, run.written),
            metadata_file(writer.paths.metadata_dir, run.latest_id),
        ) == Some(run.written[run.written.len() - 2].1),
        found(stored(files, run.written), metadata_file(writer.paths.metadata_dir, other))
            == found(files, metadata_file(writer.paths.metadata_dir, other)),
        exists|uuid: Seq<char>| #[trigger]
            is_document_with(
                writer,
                run,
                list_path_of(run),
                uuid,
                run.written[run.written.len() - 2].1,
            ),
{
    let dir = writer.paths.metadata_dir;
    let n = run.written.len();
    let documents = run.written.drop_last();
    let lists = documents.drop_last();
    kinds_of_files_are_distinct(
        dir,
        writer.paths.uuid,
        run.latest_id,
        writer.paths.manifest_lists,
        writer.paths.manifests,
    );
    kinds_of_files_are_distinct(
        dir,
        writer.paths.uuid,
        other,
        writer.paths.manifest_lists,
        writer.paths.manifests,
    );
    metadata_files_are_distinct(dir, run.latest_id, other);
    assert(run.written[n - 2] == documents.last());
    assert(run.written[n - 3] == lists.last());
    assert(stored(files, documents)[metadata_file(dir, run.latest_id)] == documents.last().1);
    early_files_are_others(writer, run, lists, other);
    assert forall|i: int| 0 <= i < n implies (#[trigger] run.written[i]).0 != metadata_file(
        dir,
        other,
    ) by {
        if i < lists.len() {
            assert(run.written[i] == lists[i]);
        }
    }
    other_files_stay(files, run.written, metadata_file(dir, other));
    let uuid = choose|uuid: Seq<char>| #[trigger]
        is_document_with(writer, run, lists.last().0, uuid, documents.last().1);
    assert(is_document_with(writer, run, list_path_of(run), uuid, run.written[n - 2].1));
}

/// What a run is in the middle of, where it is to keep the table UUID in the
/// document of the snapshot `earlier`.
spec fn is_keeping(
    earlier: i64,
    document: Seq<char>,
    uuid: Seq<char>,
    writer: IcebergChangelogWriterView,
    run: ChangelogWriteView,
    step: StepView,
) -> bool {
    let dir = writer.paths.metadata_dir;
    match run.stage {
        StageView::ReadingHint { .. } => {
            step == StepView::Ask(RequestView::ReadFile { path: version_hint_file(dir) })
        },
        StageView::ReadingDocument { .. } => {
            step == StepView::Ask(RequestView::ReadFile { path: metadata_file(dir, earlier) })
        },
        StageView::ReadingUuid { .. } => {
            step == StepView::Ask(RequestView::ReadTableUuid { document })
        },
        StageView::ReadingClock { uuid: known, .. } => known == uuid,
        StageView::WritingDocument => is_document_with(
            writer,
            run,
            run.written.last().0,
            uuid,
            run.pending->Some_0.1,
        ),
        StageView::WritingHint => is_document_with(
            writer,
            run,
            run.written.drop_last().last().0,
            uuid,
            run.written.last().1,
        ),
        StageView::Finished => step == StepView::Done(true) ==> is_document_with(
            writer,
            run,
            run.written.drop_last().drop_last().last().0,
            uuid,
            run.written.drop_last().last().1,
        ),
        _ => true,
    }
}

/// A run that is keeping a table UUID goes on keeping it.
proof fn keeping_goes_on(
    table: TableFiles,
    files: Map<Seq<char>, Seq<u8>>,
    earlier: i64,
    former: IcebergMetadataView,
    a: Moment,
    b: Moment,
)
    requires
        ({
            let dir = a.writer.paths.metadata_dir;
            let document = json_pretty(metadata_tree(former));
            &&& is_random_uuid(a.writer.paths.uuid)
            &&& found(files, version_hint_file(dir)) == Some(version_hint(earlier))
            &&& found(files, metadata_file(dir, earlier)) == Some(encode_utf8(document))
            &&& json_parsed(document) == Some(metadata_tree(former))
            &&& is_keeping(earlier, document, former.table_uuid, a.writer, a.run, a.step)
        }),
        is_on_course(table, a.writer, a.run, a.step),
        is_answered_from(files, a),
        leads_to(table, a, b),
    ensures
        is_keeping(
            earlier,
            json_pretty(metadata_tree(former)),
            former.table_uuid,
            b.writer,
            b.run,
            b.step,
        ),
{
    let dir = a.writer.paths.metadata_dir;
    let document = json_pretty(metadata_tree(former));
    let uuid = former.table_uuid;
    match a.run.stage {
        StageView::ReadingHint { .. } => {
            early_files_are_others(a.writer, a.run, a.run.written, earlier);
            other_files_stay(files, a.run.written, version_hint_file(dir));
            the_hint_is_read_back(earlier);
        },
        StageView::ReadingDocument { .. } => {
            early_files_are_others(a.writer, a.run, a.run.written, earlier);
            other_files_stay(files, a.run.written, metadata_file(dir, earlier));
            encode_utf8_valid_utf8(document);
            encode_utf8_decode_utf8(document);
        },
        StageView::ReadingUuid { .. } => {
            assert(a.reply == ReplyView::TableUuid(Some(uuid)));
        },
        StageView::ReadingClock { list_path, .. } => {
            let timestamp_ms = match a.reply {
                ReplyView::Clock(ms) => ms,
                _ => 0,
            };
            assert(b.run.pending->Some_0.1 == document_bytes(
                b.writer,
                b.run.table_schema,
                b.run.latest_id,
                list_path,
                uuid,
                timestamp_ms,
            ));
        },
        StageView::WritingDocument => {
            if a.reply is Written {
                assert(b.run.written.drop_last() =~= a.run.written);
                document_of_same_run(
                    a.writer,
                    a.run,
                    b.run,
                    a.run.written.last().0,
                    uuid,
                    a.run.pending->Some_0.1,
                );
            }
        },
        StageView::WritingHint => {
            if a.reply is Written {
                assert(b.run.written.drop_last() =~= a.run.written);
                document_of_same_run(
                    a.writer,
                    a.run,
                    b.run,
                    a.run.written.drop_last().last().0,
                    uuid,
                    a.run.written.last().1,
                );
            }
        },
        _ => {},
    }
}

/// A run that finds a hint and a document keeps the table UUID in the document
/// at every moment.
proof fn keeping_lasts(
    table: TableFiles,
    files: Map<Seq<char>, Seq<u8>>,
    earlier: i64,
    former: IcebergMetadataView,
    history: Seq<Moment>,
    i: int,
)
    requires
        is_history(table, history),
        is_run_on(files, history),
        is_random_uuid(history[0].writer.paths.uuid),
        found(files, version_hint_file(history[0].writer.paths.metadata_dir)) == Some(
            version_hint(earlier),
        ),
        found(files, metadata_file(history[0].writer.paths.metadata_dir, earlier)) == Some(
            encode_utf8(json_pretty(metadata_tree(former))),
        ),
        json_parsed(json_pretty(metadata_tree(former))) == Some(metadata_tree(former)),
        0 <= i < history.len(),
    ensures
        is_keeping(
            earlier,
            json_pretty(metadata_tree(former)),
            former.table_uuid,
            history[i].writer,
            history[i].run,
            history[i].step,
        ),
        history[i].writer.paths.metadata_dir == history[0].writer.paths.metadata_dir,
        history[i].writer.paths.uuid == history[0].writer.paths.uuid,
        history[i].run.latest_id == history[0].run.latest_id,
        history[i].run.table_schema == history[0].run.table_schema,
    decreases i,
{
    if i > 0 {
        let a = history[i - 1];
        let b = history[i];
        keeping_lasts(table, files, earlier, former, history, i - 1);
        a_run_is_always_on_course(table, history, i - 1);
        assert(leads_to(table, a, history[i - 1 + 1]));
        assert(is_answered_from(files, a));
        a_run_keeps_its_setting(a.writer, a.run, a.reply, b.writer, b.run, b.step);
        keeping_goes_on(table, files, earlier, former, a, b);
    }
}

/// A run keeps its snapshot, its table and its directory throughout.
proof fn the_setting_lasts(table: TableFiles, history: Seq<Moment>, i: int)
    requires
        is_history(table, history),
        0 <= i < history.len(),
    ensures
        history[i].writer.paths.metadata_dir == history[0].writer.paths.metadata_dir,
        history[i].writer.paths.uuid == history[0].writer.paths.uuid,
        history[i].run.latest_id == history[0].run.latest_id,
        history[i].run.table_schema == history[0].run.table_schema,
    decreases i,
{
    if i > 0 {
        let a = history[i - 1];
        let b = history[i];
        the_setting_lasts(table, history, i - 1);
        assert(leads_to(table, a, history[i - 1 + 1]));
        a_run_keeps_its_setting(a.writer, a.run, a.reply, b.writer, b.run, b.step);
    }
}

/// The table UUID is stable: where a run has written the metadata of a snapshot
/// and a later run, which finds what the first has left, writes that of another,
/// both documents have one table UUID, and the first document is as it was.
///
/// The first run's document has to be one that can be read: the types of its
/// columns are not nested too deeply for that.
pub proof fn documents_share_their_table_uuid(
    files: Map<Seq<char>, Seq<u8>>,
    first_table: TableFiles,
    first: Seq<Moment>,
    second_table: TableFiles,
    second: Seq<Moment>,
)
    requires
        is_history(first_table, first),
        first.last().step == StepView::Done(true),
        is_random_uuid(first[0].writer.paths.uuid),
        are_shallow(first[0].run.table_schema.fields@, NESTING_LIMIT - 4),
        is_history(second_table, second),
        second.last().step == StepView::Done(true),
        is_random_uuid(second[0].writer.paths.uuid),
        second[0].writer.paths.metadata_dir == first[0].writer.paths.metadata_dir,
        second[0].run.latest_id != first[0].run.latest_id,
        is_run_on(stored(files, first.last().run.written), second),
    ensures
        ({
            let dir = first[0].writer.paths.metadata_dir;
            let path = metadata_file(dir, first[0].run.latest_id);
            let next_path = metadata_file(dir, second[0].run.latest_id);
            let before = stored(files, first.last().run.written);
            let after = stored(before, second.last().run.written);
            &&& found(after, path) == found(before, path)
            &&& found(after, path) is Some
            &&& found(after, next_path) is Some
            &&& exists|uuid: Seq<char>|
                {
                    &&& #[trigger] is_document_with(
                        first.last().writer,
                        first.last().run,
                        list_path_of(first.last().run),
                        uuid,
                        after[path],
                    )
                    &&& is_document_with(
                        second.last().writer,
                        second.last().run,
                        list_path_of(second.last().run),
                        uuid,
                        after[next_path],
                    )
                }
        }),
{
    let dir = first[0].writer.paths.metadata_dir;
    let (a, b) = (first.last(), second.last());
    let before = stored(files, a.run.written);
    the_setting_lasts(first_table, first, first.len() - 1);
    the_setting_lasts(second_table, second, second.len() - 1);
    a_run_writes_the_changelog(first_table, first);
    a_run_writes_the_changelog(second_table, second);
    a_complete_run_leaves_hint_and_document(
        first_table,
        a.writer,
        a.run,
        files,
        b.run.latest_id,
    );
    a_complete_run_leaves_hint_and_document(
        second_table,
        b.writer,
        b.run,
        before,
        a.run.latest_id,
    );
    let list_path = list_path_of(a.run);
    let bytes = a.run.written[a.run.written.len() - 2].1;
    let uuid = choose|uuid: Seq<char>| #[trigger]
        is_document_with(a.writer, a.run, list_path, uuid, bytes);
    let timestamp_ms = choose|timestamp_ms: u64|
        bytes == #[trigger] document_bytes(
            a.writer,
            a.run.table_schema,
            a.run.latest_id,
            list_path,
            uuid,
            timestamp_ms,
        ) && is_read_back(
            run_metadata(
                a.writer,
                a.run.table_schema,
                a.run.latest_id,
                list_path,
                uuid,
                timestamp_ms,
            ),
        );
    the_document_can_be_read(
        a.writer,
        a.run.table_schema,
        a.run.latest_id,
        list_path,
        uuid,
        timestamp_ms,
    );
    let former = run_metadata(
        a.writer,
        a.run.table_schema,
        a.run.latest_id,
        list_path,
        uuid,
        timestamp_ms,
    );
    keeping_lasts(second_table, before, a.run.latest_id, former, second, second.len() - 1);
    a_run_is_always_on_course(second_table, second, second.len() - 1);
    let written = b.run.written;
    assert(written.drop_last().last() == written[written.len() - 2]);
    assert(written.drop_last().drop_last().last() == written[written.len() - 3]);
}

/// What is read from a run's document, where it can be read, has the table UUID
/// that the document was written with.
pub proof fn the_document_tells_its_table_uuid(
    writer: IcebergChangelogWriterView,
    run: ChangelogWriteView,
    list_path: Seq<char>,
    uuid: Seq<char>,
    bytes: Seq<u8>,
    metadata: IcebergMetadataView,
)
    requires
        is_document_with(writer, run, list_path, uuid, bytes),
        are_shallow(run.table_schema.fields@, NESTING_LIMIT - 4),
        json_parsed(decode_utf8(bytes)) == Some(metadata_tree(metadata)),
    ensures
        metadata.table_uuid == uuid,
{
    let timestamp_ms = choose|timestamp_ms: u64|
        bytes == #[trigger] document_bytes(
            writer,
            run.table_schema,
            run.latest_id,
            list_path,
            uuid,
            timestamp_ms,
        ) && is_read_back(
            run_metadata(
                writer,
                run.table_schema,
                run.latest_id,
                list_path,
                uuid,
                timestamp_ms,
            ),
        );
    let known = run_metadata(
        writer,
        run.table_schema,
        run.latest_id,
        list_path,
        uuid,
        timestamp_ms,
    );
    the_document_can_be_read(
        writer,
        run.table_schema,
        run.latest_id,
        list_path,
        uuid,
        timestamp_ms,
    );
    encode_utf8_decode_utf8(json_pretty(metadata_tree(known)));
    document_is_lossless(metadata, known);
}

/// A snapshot is written once: where a run has written the metadata of a
/// snapshot, a later run for the same snapshot, which finds what the first has
/// left, skips it at once.
pub proof fn a_written_snapshot_is_skipped(
    files: Map<Seq<char>, Seq<u8>>,
    first_table: TableFiles,
    first: Seq<Moment>,
    second_table: TableFiles,
    second: Seq<Moment>,
)
    requires
        is_history(first_table, first),
        first.last().step == StepView::Done(true),
        is_random_uuid(first[0].writer.paths.uuid),
        is_history(second_table, second),
        second[0].writer.paths.metadata_dir == first[0].writer.paths.metadata_dir,
        second[0].run.latest_id == first[0].run.latest_id,
        is_run_on(stored(files, first.last().run.written), second),
        second.len() > 1,
    ensures
        second[1].step == StepView::Done(false),
        second[1].run.written.len() == 0,
        second.len() == 2,
{
    let a = first.last();
    the_setting_lasts(first_table, first, first.len() - 1);
    a_run_writes_the_changelog(first_table, first);
    let other: i64 = if a.run.latest_id == 0 {
        1
    } else {
        0
    };
    a_complete_run_leaves_hint_and_document(first_table, a.writer, a.run, files, other);
    assert(is_answered_from(stored(files, a.run.written), second[0]));
    assert(leads_to(second_table, second[0], second[0int + 1]));
    if second.len() > 2 {
        assert(leads_to(second_table, second[1], second[1int + 1]));
    }
}

} // verus!
