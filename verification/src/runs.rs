//! What whole runs of the changelog writer amount to.
//!
//! The laws here are about a run from its first step to its last, against a
//! table whose own files do not change meanwhile.
use vstd::prelude::*;
use vstd::utf8::{encode_utf8, encode_utf8_decode_utf8, encode_utf8_valid_utf8};

use crate::changelog::{added_entries, base_schema, summary_of_rows};
use crate::document::{documents_are_readable, is_read_back, metadata_tree};
use crate::ids::is_random_uuid;
use crate::json::{is_readable, json_parsed, json_pretty, NESTING_LIMIT};
use crate::manifest::{
    entry_records, is_container_of, manifest_file_records, IcebergManifestEntryView,
    ICEBERG_MANIFEST_ENTRY_SCHEMA, ICEBERG_MANIFEST_LIST_SCHEMA,
};
use crate::metadata::IcebergMetadataView;
use crate::path_factory::{
    kinds_of_files_are_distinct, manifest_file, manifest_list_file, metadata_file,
    version_hint_file,
};
use crate::table::{ManifestEntryView, SnapshotView, TableSchema};
use crate::text::{int_text, numerals_need_no_trimming, printed_integers_parse};
use crate::types::{are_shallow, iceberg_field, is_shallow, shallow_types_are_readable};
use crate::write::{
    document_bytes, hinted_version, run_metadata, table_manifest_path, transition, version_hint,
    ChangelogWriteView, IcebergChangelogWriterView, ReplyView, RequestView, StageView, StepView,
};

verus! {

/// The files of a Paimon table that a run reads: its snapshots by id, its
/// manifest lists and its manifests by path.
#[verifier::ext_equal]
pub struct TableFiles {
    pub earliest: Option<i64>,
    pub snapshots: Map<i64, SnapshotView>,
    pub manifest_lists: Map<Seq<char>, Seq<Seq<char>>>,
    pub manifests: Map<Seq<char>, Seq<ManifestEntryView>>,
}

/// Whether a reply is one that the table gives rise to. A snapshot can be
/// loaded where the table has it; every other read may also fail. What is not
/// a read of the table may be answered in any way.
pub open spec fn answers(table: TableFiles, request: RequestView, reply: ReplyView) -> bool {
    match request {
        RequestView::FindEarliestSnapshot => {
            reply == ReplyView::EarliestSnapshot(table.earliest) || reply is Failed
        },
        RequestView::LoadSnapshot { id } => if table.snapshots.dom().contains(id) {
            reply == ReplyView::LoadedSnapshot(table.snapshots[id])
        } else {
            reply is Failed
        },
        RequestView::ReadManifestList { path } => {
            ||| reply == ReplyView::Manifests(table.manifest_lists[path])
                && table.manifest_lists.dom().contains(path)
            ||| reply is Failed
        },
        RequestView::ReadManifest { path } => {
            ||| reply == ReplyView::Entries(table.manifests[path])
                && table.manifests.dom().contains(path)
            ||| reply is Failed
        },
        _ => true,
    }
}

/// The rows for the files that some manifests of a snapshot add.
pub open spec fn manifest_rows(
    table: TableFiles,
    location: Seq<char>,
    id: i64,
    names: Seq<Seq<char>>,
) -> Seq<IcebergManifestEntryView>
    decreases names.len(),
{
    if names.len() == 0 {
        Seq::empty()
    } else {
        manifest_rows(table, location, id, names.drop_last()) + added_entries(
            location,
            id,
            table.manifests[table_manifest_path(location, names.last())],
        )
    }
}

/// The path of a snapshot's changelog manifest list, where the table has the
/// snapshot and the snapshot has a changelog.
pub open spec fn changelog_list(table: TableFiles, location: Seq<char>, id: i64) -> Option<
    Seq<char>,
> {
    if table.snapshots.dom().contains(id) {
        match table.snapshots[id].changelog_manifest_list {
            Some(name) => Some(table_manifest_path(location, name)),
            None => None,
        }
    } else {
        None
    }
}

/// The rows for the files that the changelog of a snapshot adds.
pub open spec fn snapshot_rows(table: TableFiles, location: Seq<char>, id: i64) -> Seq<
    IcebergManifestEntryView,
> {
    match changelog_list(table, location, id) {
        Some(path) => manifest_rows(table, location, id, table.manifest_lists[path]),
        None => Seq::empty(),
    }
}

/// The rows for the files that the changelogs of the snapshots from `from` up
/// to, but not including, `to` add.
pub open spec fn retained_rows(
    table: TableFiles,
    location: Seq<char>,
    from: int,
    to: int,
) -> Seq<IcebergManifestEntryView>
    decreases to - from,
{
    if to <= from {
        Seq::empty()
    } else {
        retained_rows(table, location, from, to - 1) + snapshot_rows(
            table,
            location,
            (to - 1) as i64,
        )
    }
}

/// All rows of a run: those of the retained snapshots up to its own.
pub open spec fn all_rows(
    table: TableFiles,
    writer: IcebergChangelogWriterView,
    run: ChangelogWriteView,
) -> Seq<IcebergManifestEntryView> {
    retained_rows(
        table,
        writer.table_location,
        table.earliest->Some_0 as int,
        run.latest_id + 1,
    )
}

/// Whether the first files that a run writes are right: its manifest, where it
/// has rows.
pub open spec fn wrote_manifest(
    writer: IcebergChangelogWriterView,
    run: ChangelogWriteView,
    files: Seq<(Seq<char>, Seq<u8>)>,
) -> bool {
    if run.entries.len() == 0 {
        files.len() == 0
    } else {
        &&& files.len() == 1
        &&& files[0].0 == manifest_file(
            writer.paths.metadata_dir,
            writer.paths.uuid,
            writer.paths.manifests,
        )
        &&& is_container_of(
            files[0].1,
            ICEBERG_MANIFEST_ENTRY_SCHEMA@,
            entry_records(run.entries),
        )
    }
}

/// Whether a file is right as the manifest list of a run: it lists the
/// manifest, where there is one.
pub open spec fn is_list(
    writer: IcebergChangelogWriterView,
    run: ChangelogWriteView,
    manifests: Seq<(Seq<char>, Seq<u8>)>,
    file: (Seq<char>, Seq<u8>),
) -> bool {
    &&& file.0 == manifest_list_file(
        writer.paths.metadata_dir,
        writer.paths.uuid,
        writer.paths.manifest_lists,
    )
    &&& is_container_of(
        file.1,
        ICEBERG_MANIFEST_LIST_SCHEMA@,
        if run.entries.len() == 0 {
            Seq::empty()
        } else {
            manifest_file_records(
                seq![
                    summary_of_rows(
                        manifests[0].0,
                        manifests[0].1.len(),
                        run.latest_id,
                        run.entries,
                    ),
                ],
            )
        },
    )
}

/// Whether a run has written its manifest and its manifest list, and nothing
/// else.
pub open spec fn wrote_list(
    writer: IcebergChangelogWriterView,
    run: ChangelogWriteView,
    files: Seq<(Seq<char>, Seq<u8>)>,
) -> bool {
    &&& files.len() > 0
    &&& wrote_manifest(writer, run, files.drop_last())
    &&& is_list(writer, run, files.drop_last(), files.last())
}

/// Whether some bytes are right as the metadata document of a run, given the
/// path of the run's manifest list and the table UUID. The document is read
/// back, where it can be read.
pub open spec fn is_document_with(
    writer: IcebergChangelogWriterView,
    run: ChangelogWriteView,
    list_path: Seq<char>,
    uuid: Seq<char>,
    bytes: Seq<u8>,
) -> bool {
    exists|timestamp_ms: u64|
        bytes == #[trigger] document_bytes(
            writer,
            run.table_schema,
            run.latest_id,
            list_path,
            uuid,
            timestamp_ms,
        ) && is_read_back(
            run_metadata(
                writer,
                run.table_schema,
                run.latest_id,
                list_path,
                uuid,
                timestamp_ms,
            ),
        )
}

/// Whether a file is right as the metadata document of a run, given the path
/// of the run's manifest list.
pub open spec fn is_document(
    writer: IcebergChangelogWriterView,
    run: ChangelogWriteView,
    list_path: Seq<char>,
    file: (Seq<char>, Seq<u8>),
) -> bool {
    &&& file.0 == metadata_file(writer.paths.metadata_dir, run.latest_id)
    &&& exists|uuid: Seq<char>| #[trigger] is_document_with(writer, run, list_path, uuid, file.1)
}

/// Whether a run has written its manifest, its manifest list and its metadata
/// document, and nothing else.
pub open spec fn wrote_document(
    writer: IcebergChangelogWriterView,
    run: ChangelogWriteView,
    files: Seq<(Seq<char>, Seq<u8>)>,
) -> bool {
    &&& files.len() > 0
    &&& wrote_list(writer, run, files.drop_last())
    &&& is_document(writer, run, files.drop_last().last().0, files.last())
}

/// Whether a run has written all its files, in this order: a manifest with the
/// rows of all retained snapshots, where there is a row; the manifest list that
/// lists it; the metadata document that refers to the list; and the version
/// hint that leads to the document.
pub open spec fn is_complete(
    table: TableFiles,
    writer: IcebergChangelogWriterView,
    run: ChangelogWriteView,
) -> bool {
    &&& table.earliest is Some
    &&& run.entries == all_rows(table, writer, run)
    &&& run.written.len() > 0
    &&& wrote_document(writer, run, run.written.drop_last())
    &&& run.written.last() == (
        version_hint_file(writer.paths.metadata_dir),
        version_hint(run.latest_id),
    )
}

/// Whether what a run has written is the beginning of what it was to write:
/// nothing, or its first files, up to its metadata document at most.
pub open spec fn is_beginning(
    writer: IcebergChangelogWriterView,
    run: ChangelogWriteView,
) -> bool {
    ||| run.written.len() == 0
    ||| wrote_manifest(writer, run, run.written)
    ||| wrote_list(writer, run, run.written)
    ||| wrote_document(writer, run, run.written)
}

/// Whether a run has done, up to its present stage, what it should.
pub open spec fn is_on_course(
    table: TableFiles,
    writer: IcebergChangelogWriterView,
    run: ChangelogWriteView,
    step: StepView,
) -> bool {
    let location = writer.table_location;
    let from = table.earliest->Some_0 as int;
    match run.stage {
        StageView::CheckingTarget => run.entries.len() == 0 && run.written.len() == 0
            && step is Ask,
        StageView::FindingEarliest => {
            &&& run.entries.len() == 0
            &&& run.written.len() == 0
            &&& step == StepView::Ask(RequestView::FindEarliestSnapshot)
        },
        StageView::LoadingSnapshot { id } => {
            &&& table.earliest is Some
            &&& from <= id <= run.latest_id
            &&& run.entries == retained_rows(table, location, from, id as int)
            &&& run.written.len() == 0
            &&& step == StepView::Ask(RequestView::LoadSnapshot { id })
        },
        StageView::ReadingList { id } => {
            &&& table.earliest is Some
            &&& from <= id <= run.latest_id
            &&& run.entries == retained_rows(table, location, from, id as int)
            &&& run.written.len() == 0
            &&& changelog_list(table, location, id) is Some
            &&& step == StepView::Ask(
                RequestView::ReadManifestList {
                    path: changelog_list(table, location, id)->Some_0,
                },
            )
        },
        StageView::ReadingManifest { id, names, next } => {
            &&& table.earliest is Some
            &&& from <= id <= run.latest_id
            &&& changelog_list(table, location, id) is Some
            &&& names == table.manifest_lists[changelog_list(table, location, id)->Some_0]
            &&& 0 <= next < names.len()
            &&& run.entries == retained_rows(table, location, from, id as int) + manifest_rows(
                table,
                location,
                id,
                names.take(next),
            )
            &&& run.written.len() == 0
            &&& step == StepView::Ask(
                RequestView::ReadManifest { path: table_manifest_path(location, names[next]) },
            )
        },
        StageView::WritingManifest { summary, list_path } => {
            &&& table.earliest is Some
            &&& run.entries == all_rows(table, writer, run)
            &&& run.entries.len() > 0
            &&& run.written.len() == 0
            &&& run.pending is Some
            &&& wrote_manifest(writer, run, seq![run.pending->Some_0])
            &&& summary == summary_of_rows(
                run.pending->Some_0.0,
                run.pending->Some_0.1.len(),
                run.latest_id,
                run.entries,
            )
            &&& list_path == manifest_list_file(
                writer.paths.metadata_dir,
                writer.paths.uuid,
                writer.paths.manifest_lists,
            )
            &&& step is Ask
        },
        StageView::WritingList { list_path } => {
            &&& table.earliest is Some
            &&& run.entries == all_rows(table, writer, run)
            &&& wrote_manifest(writer, run, run.written)
            &&& run.pending is Some
            &&& run.pending->Some_0.0 == list_path
            &&& is_list(writer, run, run.written, run.pending->Some_0)
            &&& step is Ask
        },
        StageView::ReadingHint { list_path } => is_between(table, writer, run, list_path, step),
        StageView::ReadingDocument { list_path } => is_between(
            table,
            writer,
            run,
            list_path,
            step,
        ),
        StageView::ReadingUuid { list_path } => is_between(table, writer, run, list_path, step),
        StageView::ReadingClock { list_path, .. } => is_between(
            table,
            writer,
            run,
            list_path,
            step,
        ),
        StageView::WritingDocument => {
            &&& table.earliest is Some
            &&& run.entries == all_rows(table, writer, run)
            &&& wrote_list(writer, run, run.written)
            &&& run.pending is Some
            &&& is_document(writer, run, run.written.last().0, run.pending->Some_0)
            &&& step is Ask
        },
        StageView::WritingHint => {
            &&& table.earliest is Some
            &&& run.entries == all_rows(table, writer, run)
            &&& wrote_document(writer, run, run.written)
            &&& run.pending == Some(
                (version_hint_file(writer.paths.metadata_dir), version_hint(run.latest_id)),
            )
            &&& step is Ask
        },
        StageView::Finished => match step {
            StepView::Done(true) => is_complete(table, writer, run),
            StepView::Done(false) => run.written.len() == 0,
            StepView::Overflow => run.written.len() == 0,
            StepView::Failed => is_beginning(writer, run),
            _ => false,
        },
    }
}

/// Whether a run stands between its manifest list and its document.
pub open spec fn is_between(
    table: TableFiles,
    writer: IcebergChangelogWriterView,
    run: ChangelogWriteView,
    list_path: Seq<char>,
    step: StepView,
) -> bool {
    &&& table.earliest is Some
    &&& run.entries == all_rows(table, writer, run)
    &&& wrote_list(writer, run, run.written)
    &&& run.written.last().0 == list_path
    &&& step is Ask
}

/// A document stays right as a run goes on.
pub(crate) proof fn document_of_same_run(
    writer: IcebergChangelogWriterView,
    run: ChangelogWriteView,
    next: ChangelogWriteView,
    list_path: Seq<char>,
    uuid: Seq<char>,
    bytes: Seq<u8>,
)
    requires
        run.table_schema == next.table_schema,
        run.latest_id == next.latest_id,
        is_document_with(writer, run, list_path, uuid, bytes),
    ensures
        is_document_with(writer, next, list_path, uuid, bytes),
{
    let timestamp_ms = choose|timestamp_ms: u64|
        bytes == #[trigger] document_bytes(
            writer,
            run.table_schema,
            run.latest_id,
            list_path,
            uuid,
            timestamp_ms,
        ) && is_read_back(
            run_metadata(
                writer,
                run.table_schema,
                run.latest_id,
                list_path,
                uuid,
                timestamp_ms,
            ),
        );
    assert(bytes == document_bytes(
        writer,
        next.table_schema,
        next.latest_id,
        list_path,
        uuid,
        timestamp_ms,
    ));
}

/// A run that walks on from the rows of the snapshots before `id` stays on
/// course.
proof fn walking_on_stays_on_course(
    table: TableFiles,
    writer: IcebergChangelogWriterView,
    run: ChangelogWriteView,
    id: int,
    next_writer: IcebergChangelogWriterView,
    next: ChangelogWriteView,
    step: StepView,
)
    requires
        table.earliest is Some,
        run.written.len() == 0,
        table.earliest->Some_0 <= id,
        id <= run.latest_id + 1 || id == table.earliest->Some_0,
        run.entries == retained_rows(
            table,
            writer.table_location,
            table.earliest->Some_0 as int,
            id,
        ),
        crate::write::walks_on(writer, run, id, next_writer, next, step),
    ensures
        is_on_course(table, next_writer, next, step),
{
    if id > run.latest_id {
        assert(run.entries == all_rows(table, writer, run));
        if next.pending is Some {
            assert(seq![next.pending->Some_0][0] == next.pending->Some_0);
        }
    }
}

/// A run that reads on from the rows of the first manifests of a snapshot stays
/// on course.
proof fn reading_on_stays_on_course(
    table: TableFiles,
    writer: IcebergChangelogWriterView,
    run: ChangelogWriteView,
    id: i64,
    names: Seq<Seq<char>>,
    at: int,
    next_writer: IcebergChangelogWriterView,
    next: ChangelogWriteView,
    step: StepView,
)
    requires
        table.earliest is Some,
        run.written.len() == 0,
        table.earliest->Some_0 <= id <= run.latest_id,
        changelog_list(table, writer.table_location, id) is Some,
        names == table.manifest_lists[changelog_list(
            table,
            writer.table_location,
            id,
        )->Some_0],
        0 <= at <= names.len(),
        run.entries == retained_rows(
            table,
            writer.table_location,
            table.earliest->Some_0 as int,
            id as int,
        ) + manifest_rows(table, writer.table_location, id, names.take(at)),
        crate::write::reads_on(writer, run, id, names, at, next_writer, next, step),
    ensures
        is_on_course(table, next_writer, next, step),
{
    if at == names.len() {
        assert(names.take(at) =~= names);
        walking_on_stays_on_course(table, writer, run, id + 1, next_writer, next, step);
    }
}

/// A run begins on course.
pub proof fn a_run_begins_on_course(
    table: TableFiles,
    writer: IcebergChangelogWriterView,
    run: ChangelogWriteView,
    step: StepView,
)
    requires
        run.stage is CheckingTarget,
        run.entries.len() == 0,
        run.written.len() == 0,
        step is Ask,
    ensures
        is_on_course(table, writer, run, step),
{
}

/// A run that is on course and gets an answer stays on course.
pub proof fn a_run_stays_on_course(
    table: TableFiles,
    writer: IcebergChangelogWriterView,
    run: ChangelogWriteView,
    request: RequestView,
    reply: ReplyView,
    next_writer: IcebergChangelogWriterView,
    next: ChangelogWriteView,
    step: StepView,
)
    requires
        is_on_course(table, writer, run, StepView::Ask(request)),
        answers(table, request, reply),
        transition(writer, run, reply, next_writer, next, step),
    ensures
        is_on_course(table, next_writer, next, step),
{
    let location = writer.table_location;
    let from = table.earliest->Some_0 as int;
    match run.stage {
        StageView::FindingEarliest => {
            if reply is EarliestSnapshot && reply->EarliestSnapshot_0 is Some
                && crate::changelog::schema_fits(run.table_schema) {
                assert(run.entries =~= retained_rows(table, location, from, from));
                walking_on_stays_on_course(table, writer, run, from, next_writer, next, step);
            }
        },
        StageView::LoadingSnapshot { id } => {
            if changelog_list(table, location, id) is None {
                assert(snapshot_rows(table, location, id) =~= Seq::empty());
                assert(retained_rows(table, location, from, id + 1) =~= run.entries);
                walking_on_stays_on_course(table, writer, run, id + 1, next_writer, next, step);
            }
        },
        StageView::ReadingList { id } => {
            if reply is Manifests {
                let names = reply->Manifests_0;
                assert(names.take(0) =~= Seq::empty());
                assert(run.entries =~= retained_rows(table, location, from, id as int)
                    + manifest_rows(table, location, id, names.take(0)));
                reading_on_stays_on_course(
                    table,
                    writer,
                    run,
                    id,
                    names,
                    0,
                    next_writer,
                    next,
                    step,
                );
            }
        },
        StageView::ReadingManifest { id, names, next: at } => {
            if reply is Entries {
                let added = added_entries(location, id, reply->Entries_0);
                let grown = ChangelogWriteView { entries: run.entries + added, ..run };
                assert(names.take(at + 1).drop_last() =~= names.take(at));
                assert(names.take(at + 1).last() == names[at]);
                assert(grown.entries =~= retained_rows(table, location, from, id as int)
                    + manifest_rows(table, location, id, names.take(at + 1)));
                reading_on_stays_on_course(
                    table,
                    writer,
                    grown,
                    id,
                    names,
                    at + 1,
                    next_writer,
                    next,
                    step,
                );
            }
        },
        StageView::WritingManifest { .. } => {
            if reply is Written {
                assert(next.written =~= seq![run.pending->Some_0]);
            }
        },
        StageView::WritingList { .. } => {
            if reply is Written {
                assert(next.written.drop_last() =~= run.written);
            }
        },
        StageView::ReadingClock { list_path, uuid } => {
            let timestamp_ms = match reply {
                ReplyView::Clock(ms) => ms,
                _ => 0,
            };
            assert(next.pending->Some_0.1 == document_bytes(
                writer,
                next.table_schema,
                next.latest_id,
                list_path,
                uuid,
                timestamp_ms,
            ));
            assert(is_document_with(writer, next, list_path, uuid, next.pending->Some_0.1));
        },
        StageView::WritingDocument => {
            if reply is Written {
                assert(next.written.drop_last() =~= run.written);
                assert(next.written.last() == run.pending->Some_0);
                let list_path = run.written.last().0;
                let bytes = run.pending->Some_0.1;
                let uuid = choose|uuid: Seq<char>|
                    #[trigger] is_document_with(writer, run, list_path, uuid, bytes);
                document_of_same_run(writer, run, next, list_path, uuid, bytes);
            }
        },
        StageView::WritingHint => {
            if reply is Written {
                assert(next.written.drop_last() =~= run.written);
            }
            let list_path = run.written.drop_last().last().0;
            let bytes = run.written.last().1;
            let uuid = choose|uuid: Seq<char>|
                #[trigger] is_document_with(writer, run, list_path, uuid, bytes);
            document_of_same_run(writer, run, next, list_path, uuid, bytes);
        },
        _ => {},
    }
}

/// A run at one moment: what it does next, and the reply that it then gets.
#[verifier::ext_equal]
pub struct Moment {
    pub writer: IcebergChangelogWriterView,
    pub run: ChangelogWriteView,
    pub step: StepView,
    pub reply: ReplyView,
}

/// Whether `history` is what happens to a run from its first moment on.
pub open spec fn is_history(table: TableFiles, history: Seq<Moment>) -> bool {
    &&& history.len() > 0
    &&& history[0].run.stage is CheckingTarget
    &&& history[0].run.entries.len() == 0
    &&& history[0].run.written.len() == 0
    &&& history[0].step == StepView::Ask(
        RequestView::CheckExists {
            path: metadata_file(history[0].writer.paths.metadata_dir, history[0].run.latest_id),
        },
    )
    &&& forall|i: int|
        0 <= i < history.len() - 1 ==> #[trigger] leads_to(table, history[i], history[i + 1])
}

/// Whether one moment of a run follows another.
pub open spec fn leads_to(table: TableFiles, a: Moment, b: Moment) -> bool {
    &&& a.step is Ask
    &&& answers(table, a.step->Ask_0, a.reply)
    &&& transition(a.writer, a.run, a.reply, b.writer, b.run, b.step)
}

/// A run is on course at every moment.
pub proof fn a_run_is_always_on_course(table: TableFiles, history: Seq<Moment>, i: int)
    requires
        is_history(table, history),
        0 <= i < history.len(),
    ensures
        is_on_course(table, history[i].writer, history[i].run, history[i].step),
    decreases i,
{
    if i > 0 {
        a_run_is_always_on_course(table, history, i - 1);
        let a = history[i - 1];
        let b = history[i];
        assert(leads_to(table, a, history[i - 1 + 1]));
        a_run_stays_on_course(
            table,
            a.writer,
            a.run,
            a.step->Ask_0,
            a.reply,
            b.writer,
            b.run,
            b.step,
        );
    }
}

/// A run that ends well has written the changelog: a manifest with one row for
/// each file that a changelog of a retained snapshot adds, and after it the
/// manifest list, the metadata document and the version hint.
pub proof fn a_run_writes_the_changelog(table: TableFiles, history: Seq<Moment>)
    requires
        is_history(table, history),
        history.last().step == StepView::Done(true),
    ensures
        is_complete(table, history.last().writer, history.last().run),
{
    let last = history.len() - 1;
    a_run_is_always_on_course(table, history, last);
    ended_runs_are_finished(table, history, last);
}

/// A run that says that it is over is in its last stage.
proof fn ended_runs_are_finished(table: TableFiles, history: Seq<Moment>, i: int)
    requires
        is_history(table, history),
        0 <= i < history.len(),
        history[i].step !is Ask,
    ensures
        history[i].run.stage is Finished,
{
    a_run_is_always_on_course(table, history, i);
}

/// A run that skips its snapshot, or that cannot number its files and rows,
/// has written nothing.
pub proof fn a_skipped_run_writes_nothing(table: TableFiles, history: Seq<Moment>)
    requires
        is_history(table, history),
        history.last().step == StepView::Done(false) || history.last().step == StepView::Overflow,
    ensures
        history.last().run.written.len() == 0,
{
    let last = history.len() - 1;
    a_run_is_always_on_course(table, history, last);
    ended_runs_are_finished(table, history, last);
}

/// A run keeps its snapshot and its table, and its writer keeps everything but
/// the numbers of the paths that it has given out, which only grow.
pub proof fn a_run_keeps_its_setting(
    writer: IcebergChangelogWriterView,
    run: ChangelogWriteView,
    reply: ReplyView,
    next_writer: IcebergChangelogWriterView,
    next: ChangelogWriteView,
    step: StepView,
)
    requires
        transition(writer, run, reply, next_writer, next, step),
    ensures
        next.latest_id == run.latest_id,
        next.table_schema == run.table_schema,
        next_writer.table_location == writer.table_location,
        next_writer.format_version == writer.format_version,
        next_writer.paths.metadata_dir == writer.paths.metadata_dir,
        next_writer.paths.uuid == writer.paths.uuid,
        next_writer.paths.manifest_lists >= writer.paths.manifest_lists,
        next_writer.paths.manifests >= writer.paths.manifests,
{
}

/// A run whose document exists already is skipped: it asks for nothing more,
/// writes nothing and uses up no path.
pub proof fn an_existing_document_is_left_alone(
    writer: IcebergChangelogWriterView,
    run: ChangelogWriteView,
    next_writer: IcebergChangelogWriterView,
    next: ChangelogWriteView,
    step: StepView,
)
    requires
        run.stage is CheckingTarget,
        transition(writer, run, ReplyView::Exists(true), next_writer, next, step),
    ensures
        step == StepView::Done(false),
        next_writer == writer,
        next.written == run.written,
{
}

/// A run that ends well has written the document whose existence makes a later
/// run for the same snapshot skip it.
pub proof fn a_complete_run_leaves_its_document(
    table: TableFiles,
    writer: IcebergChangelogWriterView,
    run: ChangelogWriteView,
)
    requires
        is_complete(table, writer, run),
    ensures
        exists|i: int|
            0 <= i < run.written.len() && (#[trigger] run.written[i]).0 == metadata_file(
                writer.paths.metadata_dir,
                run.latest_id,
            ),
{
    let i = run.written.len() - 2;
    assert(run.written[i] == run.written.drop_last().last());
}

/// The files that a run writes have different paths.
pub proof fn a_run_writes_no_file_twice(
    table: TableFiles,
    writer: IcebergChangelogWriterView,
    run: ChangelogWriteView,
    i: int,
    j: int,
)
    requires
        is_complete(table, writer, run),
        is_random_uuid(writer.paths.uuid),
        0 <= i < j < run.written.len(),
    ensures
        run.written[i].0 != run.written[j].0,
{
    kinds_of_files_are_distinct(
        writer.paths.metadata_dir,
        writer.paths.uuid,
        run.latest_id,
        writer.paths.manifest_lists,
        writer.paths.manifests,
    );
    let n = run.written.len();
    let document = run.written.drop_last();
    let list = document.drop_last();
    assert(run.written[n - 2] == document.last());
    assert(run.written[n - 3] == list.last());
    if n == 4 {
        assert(run.written[0] == list.drop_last()[0]);
    }
}

/// A version hint leads back to the snapshot that it was written for.
pub proof fn the_hint_is_read_back(snapshot_id: i64)
    ensures
        hinted_version(version_hint(snapshot_id)) == Some(snapshot_id),
{
    let text = int_text(snapshot_id as int);
    encode_utf8_valid_utf8(text);
    encode_utf8_decode_utf8(text);
    numerals_need_no_trimming(snapshot_id as int);
    printed_integers_parse(snapshot_id);
}

/// A run that finds a hint looks for the table UUID in the document that the
/// hint leads to, and the metadata that it writes itself has the table UUID of
/// the metadata in that document.
pub proof fn the_table_uuid_is_kept(
    earlier: i64,
    document: Seq<char>,
    former: IcebergMetadataView,
    timestamp_ms: u64,
    a: Moment,
    b: Moment,
    c: Moment,
    d: Moment,
    e: Moment,
)
    requires
        a.run.stage is ReadingHint,
        a.reply == ReplyView::File(Some(version_hint(earlier))),
        transition(a.writer, a.run, a.reply, b.writer, b.run, b.step),
        b.reply == ReplyView::File(Some(encode_utf8(document))),
        transition(b.writer, b.run, b.reply, c.writer, c.run, c.step),
        json_parsed(document) == Some(metadata_tree(former)),
        c.reply == ReplyView::TableUuid(Some(former.table_uuid)),
        transition(c.writer, c.run, c.reply, d.writer, d.run, d.step),
        d.reply == ReplyView::Clock(timestamp_ms),
        transition(d.writer, d.run, d.reply, e.writer, e.run, e.step),
    ensures
        b.step == StepView::Ask(
            RequestView::ReadFile { path: metadata_file(a.writer.paths.metadata_dir, earlier) },
        ),
        c.step == StepView::Ask(RequestView::ReadTableUuid { document }),
        ({
            let metadata = run_metadata(
                a.writer,
                a.run.table_schema,
                a.run.latest_id,
                a.run.stage->ReadingHint_list_path,
                former.table_uuid,
                timestamp_ms,
            );
            &&& metadata.table_uuid == former.table_uuid
            &&& e.step == StepView::Ask(
                RequestView::WriteFile {
                    path: metadata_file(a.writer.paths.metadata_dir, a.run.latest_id),
                    bytes: encode_utf8(json_pretty(metadata_tree(metadata))),
                },
            )
        }),
{
    the_hint_is_read_back(earlier);
    encode_utf8_valid_utf8(document);
    encode_utf8_decode_utf8(document);
}

/// The document that a run writes can be read back, where the types of the
/// table's columns are not nested too deeply for that.
pub proof fn the_document_can_be_read(
    writer: IcebergChangelogWriterView,
    table_schema: TableSchema,
    latest_id: i64,
    list_path: Seq<char>,
    uuid: Seq<char>,
    timestamp_ms: u64,
)
    requires
        are_shallow(table_schema.fields@, NESTING_LIMIT - 4),
    ensures
        is_readable(
            metadata_tree(
                run_metadata(writer, table_schema, latest_id, list_path, uuid, timestamp_ms),
            ),
            NESTING_LIMIT as nat,
        ),
{
    reveal_with_fuel(is_readable, 3);
    let base = base_schema(table_schema);
    let metadata = run_metadata(writer, table_schema, latest_id, list_path, uuid, timestamp_ms);
    let schema = metadata.schemas[0];
    assert forall|i: int| 0 <= i < schema.fields.len() implies is_readable(
        (#[trigger] schema.fields[i]).type_val,
        (NESTING_LIMIT - 5) as nat,
    ) by {
        if i < base.fields.len() {
            let field = table_schema.fields@[i];
            assert(is_shallow(field.data_type, NESTING_LIMIT - 5));
            shallow_types_are_readable(field.data_type, field.id, 0, (NESTING_LIMIT - 5) as nat);
            assert(schema.fields[i] == iceberg_field(field));
        }
    }
    documents_are_readable(metadata);
}

/// Whether a request is the one that a run makes in a stage.
pub open spec fn is_asked(stage: StageView, request: RequestView) -> bool {
    match stage {
        StageView::CheckingTarget => request is CheckExists,
        StageView::FindingEarliest => request is FindEarliestSnapshot,
        StageView::LoadingSnapshot { .. } => request is LoadSnapshot,
        StageView::ReadingList { .. } => request is ReadManifestList,
        StageView::ReadingManifest { .. } => request is ReadManifest,
        StageView::WritingManifest { .. } => request is WriteFile,
        StageView::WritingList { .. } => request is WriteFile,
        StageView::ReadingHint { .. } => request is ReadFile,
        StageView::ReadingDocument { .. } => request is ReadFile,
        StageView::ReadingUuid { .. } => request is ReadTableUuid,
        StageView::ReadingClock { .. } => request is ReadClock,
        StageView::WritingDocument => request is WriteFile,
        StageView::WritingHint => request is WriteFile,
        StageView::Finished => false,
    }
}

/// Whether a reply says that what was asked for was done.
pub open spec fn is_granted(request: RequestView, reply: ReplyView) -> bool {
    match request {
        RequestView::CheckExists { .. } => reply is Exists,
        RequestView::FindEarliestSnapshot => reply is EarliestSnapshot,
        RequestView::LoadSnapshot { .. } => reply is LoadedSnapshot,
        RequestView::ReadManifestList { .. } => reply is Manifests,
        RequestView::ReadManifest { .. } => reply is Entries,
        RequestView::WriteFile { .. } => reply is Written,
        RequestView::ReadFile { .. } => reply is File,
        RequestView::ReadTableUuid { .. } => reply is TableUuid,
        RequestView::ReadClock => reply is Clock,
    }
}

/// A run whose request is granted does not fail: it makes the next request, or
/// it is over, having written its files, or skipped its snapshot, or run out of
/// numbers.
pub proof fn a_granted_run_does_not_fail(
    writer: IcebergChangelogWriterView,
    run: ChangelogWriteView,
    request: RequestView,
    reply: ReplyView,
    next_writer: IcebergChangelogWriterView,
    next: ChangelogWriteView,
    step: StepView,
)
    requires
        is_asked(run.stage, request),
        is_granted(request, reply),
        transition(writer, run, reply, next_writer, next, step),
    ensures
        match step {
            StepView::Ask(next_request) => is_asked(next.stage, next_request),
            StepView::Done(_) => next.stage is Finished,
            StepView::Overflow => next.stage is Finished,
            StepView::Failed => false,
            StepView::Invalid => false,
        },
{
}

/// Whether a run goes on where a request of this stage is not granted: a
/// snapshot may have expired, there may be no former table UUID, and the clock
/// may fail.
pub open spec fn tolerates_failure(stage: StageView) -> bool {
    ||| stage is LoadingSnapshot
    ||| stage is ReadingHint
    ||| stage is ReadingDocument
    ||| stage is ReadingUuid
    ||| stage is ReadingClock
}

/// Whether a run has not begun to write.
pub open spec fn is_collecting(stage: StageView) -> bool {
    ||| stage is CheckingTarget
    ||| stage is FindingEarliest
    ||| stage is LoadingSnapshot
    ||| stage is ReadingList
    ||| stage is ReadingManifest
}

/// Where the check of the target, the search for the earliest snapshot, the
/// read of a manifest list or of a manifest, or a write fails, the run ends as
/// failed: it asks for nothing more, and the file that could not be written is
/// not among those that it has written. Where it had not begun to write, it has
/// written nothing.
pub proof fn a_failure_ends_the_run(
    table: TableFiles,
    writer: IcebergChangelogWriterView,
    run: ChangelogWriteView,
    request: RequestView,
    reply: ReplyView,
    next_writer: IcebergChangelogWriterView,
    next: ChangelogWriteView,
    step: StepView,
)
    requires
        is_on_course(table, writer, run, StepView::Ask(request)),
        is_asked(run.stage, request),
        !tolerates_failure(run.stage),
        !is_granted(request, reply),
        transition(writer, run, reply, next_writer, next, step),
    ensures
        step == StepView::Failed,
        next.stage is Finished,
        next.written == run.written,
        is_collecting(run.stage) ==> next.written.len() == 0,
{
}

/// A run that ends as failed has not written the version hint: the hint goes on
/// leading to the document that it led to before.
pub proof fn a_failed_run_leaves_the_hint_alone(table: TableFiles, history: Seq<Moment>)
    requires
        is_history(table, history),
        is_random_uuid(history.last().writer.paths.uuid),
        history.last().step == StepView::Failed,
    ensures
        is_beginning(history.last().writer, history.last().run),
        forall|i: int|
            0 <= i < history.last().run.written.len() ==> (#[trigger] history.last().run.written[i]).0
                != version_hint_file(history.last().writer.paths.metadata_dir),
{
    let last = history.len() - 1;
    a_run_is_always_on_course(table, history, last);
    ended_runs_are_finished(table, history, last);
    let writer = history.last().writer;
    let run = history.last().run;
    let files = run.written;
    let n = files.len();
    kinds_of_files_are_distinct(
        writer.paths.metadata_dir,
        writer.paths.uuid,
        run.latest_id,
        writer.paths.manifest_lists,
        writer.paths.manifests,
    );
    if wrote_list(writer, run, files) {
        if n == 2 {
            assert(files[0] == files.drop_last()[0]);
        }
    } else if wrote_document(writer, run, files) {
        let list = files.drop_last();
        assert(files[n - 2] == list.last());
        if n == 3 {
            assert(files[0] == list.drop_last()[0]);
        }
    }
}

/// How far a stage is from the end, in the order of the stages.
pub open spec fn stages_left(stage: StageView) -> int {
    match stage {
        StageView::CheckingTarget => 10,
        StageView::FindingEarliest => 9,
        StageView::LoadingSnapshot { .. } => 8,
        StageView::ReadingList { .. } => 8,
        StageView::ReadingManifest { .. } => 8,
        StageView::WritingManifest { .. } => 7,
        StageView::WritingList { .. } => 6,
        StageView::ReadingHint { .. } => 5,
        StageView::ReadingDocument { .. } => 4,
        StageView::ReadingUuid { .. } => 3,
        StageView::ReadingClock { .. } => 2,
        StageView::WritingDocument => 1,
        StageView::WritingHint => 0,
        StageView::Finished => -1,
    }
}

/// How many snapshots are left after the one that a run has come to.
pub open spec fn snapshots_left(run: ChangelogWriteView) -> int {
    match run.stage {
        StageView::LoadingSnapshot { id } => run.latest_id - id,
        StageView::ReadingList { id } => run.latest_id - id,
        StageView::ReadingManifest { id, .. } => run.latest_id - id,
        _ => 0,
    }
}

/// How far a run is from the end of a snapshot: it loads the snapshot, reads
/// its manifest list, and then reads one manifest after the other.
pub open spec fn reads_left(run: ChangelogWriteView) -> (int, int) {
    match run.stage {
        StageView::LoadingSnapshot { .. } => (2, 0),
        StageView::ReadingList { .. } => (1, 0),
        StageView::ReadingManifest { names, next, .. } => (0, names.len() - next),
        _ => (0, 0),
    }
}

/// Every step brings a run nearer to its end: to a later stage, or to a later
/// snapshot, or to a later read of the same snapshot. None of these can go on
/// for ever.
pub proof fn a_run_makes_progress(
    table: TableFiles,
    writer: IcebergChangelogWriterView,
    run: ChangelogWriteView,
    request: RequestView,
    reply: ReplyView,
    next_writer: IcebergChangelogWriterView,
    next: ChangelogWriteView,
    step: StepView,
)
    requires
        is_on_course(table, writer, run, StepView::Ask(request)),
        answers(table, request, reply),
        transition(writer, run, reply, next_writer, next, step),
    ensures
        decreases_to!(
            stages_left(run.stage) + 1,
            snapshots_left(run),
            reads_left(run).0,
            reads_left(run).1
            => stages_left(next.stage) + 1,
            snapshots_left(next),
            reads_left(next).0,
            reads_left(next).1
        ),
{
    a_run_stays_on_course(table, writer, run, request, reply, next_writer, next, step);
}

} // verus!
