//! What a run does with each reply.
use vstd::prelude::*;
use vstd::utf8::{decode_utf8, encode_utf8, valid_utf8};

use crate::avro::avro_contents;
use crate::changelog::{
    added_entries, base_schema, changelog_schema, partition_fields, row_count, rows_fit,
    schema_fits,
};
use crate::document::metadata_tree;
use crate::ids::is_random_uuid;
use crate::json::json_pretty;
use crate::laws::changelog::a_summary_carries_its_numbers;
use crate::manifest::{entry_records, manifest_file_record, manifest_file_records};
use crate::metadata::IcebergMetadataView;
use crate::path_factory::{manifest_file, manifest_list_file, metadata_file, version_hint_file};
use crate::table::texts_of;
use crate::text::int_text;
use crate::write::{
    begins_writing, hinted_version, run_metadata, transition, ChangelogWriteView,
    IcebergChangelogWriterView, ReplyView, RequestView, StageView, StepView,
};

verus! {

/// Whether a run has only moved to another stage, and its writer is unchanged.
pub open spec fn only_moves(
    writer: IcebergChangelogWriterView,
    run: ChangelogWriteView,
    next_writer: IcebergChangelogWriterView,
    next: ChangelogWriteView,
) -> bool {
    &&& next_writer == writer
    &&& next.latest_id == run.latest_id
    &&& next.table_schema == run.table_schema
    &&& next.entries == run.entries
    &&& next.written == run.written
}

/// Whether a run has failed: it is over, has written nothing more, and its
/// writer is unchanged.
pub open spec fn fails(
    writer: IcebergChangelogWriterView,
    run: ChangelogWriteView,
    next_writer: IcebergChangelogWriterView,
    next: ChangelogWriteView,
    step: StepView,
) -> bool {
    &&& step is Failed
    &&& next.stage is Finished
    &&& next.pending is None
    &&& only_moves(writer, run, next_writer, next)
}

/// Whether a run has noted that its file was written, and its writer is
/// unchanged.
pub open spec fn notes_its_file(
    writer: IcebergChangelogWriterView,
    run: ChangelogWriteView,
    next_writer: IcebergChangelogWriterView,
    next: ChangelogWriteView,
) -> bool {
    &&& next_writer == writer
    &&& next.latest_id == run.latest_id
    &&& next.table_schema == run.table_schema
    &&& next.entries == run.entries
    &&& next.written.len() == run.written.len() + 1
    &&& next.written.last() == run.pending->0
    &&& forall|i: int| 0 <= i < run.written.len() ==> #[trigger] next.written[i] == run.written[i]
}

/// A run ends at once where its document exists already, and otherwise asks for
/// the earliest snapshot.
pub proof fn a_run_looks_for_its_document(
    writer: IcebergChangelogWriterView,
    run: ChangelogWriteView,
    reply: ReplyView,
    next_writer: IcebergChangelogWriterView,
    next: ChangelogWriteView,
    step: StepView,
)
    requires
        transition(writer, run, reply, next_writer, next, step),
        run.stage is CheckingTarget,
    ensures
        only_moves(writer, run, next_writer, next),
        reply == ReplyView::Exists(true) ==> step == StepView::Done(false)
            && next.stage is Finished,
        reply == ReplyView::Exists(false) ==> step == StepView::Ask(
            RequestView::FindEarliestSnapshot,
        ) && next.stage is FindingEarliest,
        !(reply is Exists) ==> fails(writer, run, next_writer, next, step),
{
}

/// A run starts with the earliest snapshot, and ends without one. It starts only
/// where every id that it needs has 32 bits.
pub proof fn a_run_starts_with_the_earliest_snapshot(
    writer: IcebergChangelogWriterView,
    run: ChangelogWriteView,
    reply: ReplyView,
    next_writer: IcebergChangelogWriterView,
    next: ChangelogWriteView,
    step: StepView,
)
    requires
        transition(writer, run, reply, next_writer, next, step),
        run.stage is FindingEarliest,
    ensures
        !(reply is EarliestSnapshot) ==> fails(writer, run, next_writer, next, step),
        reply == ReplyView::EarliestSnapshot(None) ==> step == StepView::Done(false)
            && next.stage is Finished && only_moves(writer, run, next_writer, next),
        reply matches ReplyView::EarliestSnapshot(Some(id)) ==> {
            &&& !schema_fits(run.table_schema) ==> step is Overflow && next.stage is Finished
                && only_moves(writer, run, next_writer, next)
            &&& schema_fits(run.table_schema) && id <= run.latest_id ==> {
                &&& only_moves(writer, run, next_writer, next)
                &&& step == StepView::Ask(RequestView::LoadSnapshot { id })
                &&& next.stage == (StageView::LoadingSnapshot { id })
            }
            &&& schema_fits(run.table_schema) && id > run.latest_id ==> begins_writing(
                writer,
                run,
                next_writer,
                next,
                step,
            )
        },
{
}

/// A loaded snapshot with a changelog has its changelog's manifest list read.
/// Any other snapshot, a lost one too, is passed over for the next one, and the
/// last one for writing.
pub proof fn a_run_reads_the_changelog_of_each_snapshot(
    writer: IcebergChangelogWriterView,
    run: ChangelogWriteView,
    reply: ReplyView,
    next_writer: IcebergChangelogWriterView,
    next: ChangelogWriteView,
    step: StepView,
    id: i64,
)
    requires
        transition(writer, run, reply, next_writer, next, step),
        run.stage == (StageView::LoadingSnapshot { id }),
    ensures
        reply is LoadedSnapshot && reply->LoadedSnapshot_0.changelog_manifest_list is Some ==> {
            &&& only_moves(writer, run, next_writer, next)
            &&& step == StepView::Ask(
                RequestView::ReadManifestList {
                    path: writer.table_location + "/manifest/"@
                        + reply->LoadedSnapshot_0.changelog_manifest_list->0,
                },
            )
            &&& next.stage == (StageView::ReadingList { id })
        },
        !(reply is LoadedSnapshot) || reply->LoadedSnapshot_0.changelog_manifest_list is None ==> {
            &&& id < run.latest_id ==> {
                &&& only_moves(writer, run, next_writer, next)
                &&& step == StepView::Ask(RequestView::LoadSnapshot { id: (id + 1) as i64 })
                &&& next.stage == (StageView::LoadingSnapshot { id: (id + 1) as i64 })
            }
            &&& id >= run.latest_id ==> begins_writing(writer, run, next_writer, next, step)
        },
{
}

/// The manifests of a list are read from the first on. An empty list is passed
/// over for the next snapshot, or for writing.
pub proof fn a_run_reads_a_list_from_its_first_manifest(
    writer: IcebergChangelogWriterView,
    run: ChangelogWriteView,
    reply: ReplyView,
    next_writer: IcebergChangelogWriterView,
    next: ChangelogWriteView,
    step: StepView,
    id: i64,
)
    requires
        transition(writer, run, reply, next_writer, next, step),
        run.stage == (StageView::ReadingList { id }),
    ensures
        !(reply is Manifests) ==> fails(writer, run, next_writer, next, step),
        reply matches ReplyView::Manifests(names) ==> {
            &&& names.len() > 0 ==> {
                &&& only_moves(writer, run, next_writer, next)
                &&& step == StepView::Ask(
                    RequestView::ReadManifest {
                        path: writer.table_location + "/manifest/"@ + names[0],
                    },
                )
                &&& next.stage == (StageView::ReadingManifest { id, names, next: 0 })
            }
            &&& names.len() == 0 && id < run.latest_id ==> {
                &&& only_moves(writer, run, next_writer, next)
                &&& step == StepView::Ask(RequestView::LoadSnapshot { id: (id + 1) as i64 })
                &&& next.stage == (StageView::LoadingSnapshot { id: (id + 1) as i64 })
            }
            &&& names.len() == 0 && id >= run.latest_id ==> begins_writing(
                writer,
                run,
                next_writer,
                next,
                step,
            )
        },
{
}

/// The rows of a manifest are added behind those that were collected before,
/// with the id of the snapshot that the manifest belongs to. The next manifest
/// of the list follows, then the next snapshot, then writing.
pub proof fn a_run_collects_the_rows_of_each_manifest(
    writer: IcebergChangelogWriterView,
    run: ChangelogWriteView,
    reply: ReplyView,
    next_writer: IcebergChangelogWriterView,
    next: ChangelogWriteView,
    step: StepView,
    id: i64,
    names: Seq<Seq<char>>,
    at: int,
)
    requires
        transition(writer, run, reply, next_writer, next, step),
        run.stage == (StageView::ReadingManifest { id, names, next: at }),
        0 <= at < names.len(),
    ensures
        !(reply is Entries) ==> fails(writer, run, next_writer, next, step),
        reply matches ReplyView::Entries(entries) ==> {
            &&& next.entries == run.entries + added_entries(writer.table_location, id, entries)
            &&& next.written == run.written
            &&& next.latest_id == run.latest_id
            &&& next.table_schema == run.table_schema
            &&& at + 1 < names.len() ==> {
                &&& next_writer == writer
                &&& step == StepView::Ask(
                    RequestView::ReadManifest {
                        path: writer.table_location + "/manifest/"@ + names[at + 1],
                    },
                )
                &&& next.stage == (StageView::ReadingManifest { id, names, next: at + 1 })
            }
            &&& at + 1 == names.len() && id < run.latest_id ==> {
                &&& next_writer == writer
                &&& step == StepView::Ask(RequestView::LoadSnapshot { id: (id + 1) as i64 })
                &&& next.stage == (StageView::LoadingSnapshot { id: (id + 1) as i64 })
            }
            &&& at + 1 == names.len() && id >= run.latest_id ==> begins_writing(
                writer,
                ChangelogWriteView { entries: next.entries, ..run },
                next_writer,
                next,
                step,
            )
        },
{
}

/// Rows that were collected go into a manifest under the next number, and what
/// is summed up of it is the manifest's path and length, the number of its rows
/// and of the rows in its files, and the snapshot's id.
pub proof fn collected_rows_are_written(
    writer: IcebergChangelogWriterView,
    run: ChangelogWriteView,
    next_writer: IcebergChangelogWriterView,
    next: ChangelogWriteView,
    step: StepView,
)
    requires
        begins_writing(writer, run, next_writer, next, step),
        writer.paths.manifest_lists < 0xffff_ffff_ffff_ffff,
        writer.paths.manifests < 0xffff_ffff_ffff_ffff,
        rows_fit(run.entries),
        0 < run.entries.len() <= 0x7fff_ffff,
        next.pending is Some ==> next.pending->Some_0.1.len() <= 0x7fff_ffff_ffff_ffff,
    ensures
        ({
            let paths = writer.paths;
            let path = manifest_file(paths.metadata_dir, paths.uuid, paths.manifests + 1);
            let bytes = next.pending->Some_0.1;
            let summary = next.stage->WritingManifest_summary;
            &&& step == StepView::Ask(RequestView::WriteFile { path, bytes })
            &&& next.pending == Some((path, bytes))
            &&& avro_contents(bytes) == entry_records(run.entries)
            &&& next.stage is WritingManifest
            &&& next.stage->WritingManifest_list_path == manifest_list_file(
                paths.metadata_dir,
                paths.uuid,
                paths.manifest_lists + 1,
            )
            &&& summary.manifest_path == path
            &&& summary.manifest_length == bytes.len()
            &&& summary.added_snapshot_id == Some(run.latest_id)
            &&& summary.sequence_number == run.latest_id
            &&& summary.added_files_count == run.entries.len()
            &&& summary.added_rows_count == row_count(run.entries)
            &&& next_writer.paths.manifests == paths.manifests + 1
            &&& next_writer.paths.manifest_lists == paths.manifest_lists + 1
            &&& next_writer.paths.metadata_dir == paths.metadata_dir
            &&& next_writer.paths.uuid == paths.uuid
            &&& next_writer.table_location == writer.table_location
            &&& next_writer.format_version == writer.format_version
            &&& next.entries == run.entries
            &&& next.written == run.written
        }),
{
    let paths = writer.paths;
    let path = manifest_file(paths.metadata_dir, paths.uuid, paths.manifests + 1);
    a_summary_carries_its_numbers(
        path,
        next.pending->Some_0.1.len(),
        run.latest_id,
        run.entries,
    );
}

/// Where no row was collected no manifest is written, and the manifest list,
/// under the next number, is empty.
pub proof fn without_rows_the_list_is_empty(
    writer: IcebergChangelogWriterView,
    run: ChangelogWriteView,
    next_writer: IcebergChangelogWriterView,
    next: ChangelogWriteView,
    step: StepView,
)
    requires
        begins_writing(writer, run, next_writer, next, step),
        writer.paths.manifest_lists < 0xffff_ffff_ffff_ffff,
        writer.paths.manifests < 0xffff_ffff_ffff_ffff,
        run.entries.len() == 0,
    ensures
        ({
            let paths = writer.paths;
            let path = manifest_list_file(
                paths.metadata_dir,
                paths.uuid,
                paths.manifest_lists + 1,
            );
            let bytes = next.pending->Some_0.1;
            &&& step == StepView::Ask(RequestView::WriteFile { path, bytes })
            &&& next.pending == Some((path, bytes))
            &&& avro_contents(bytes).len() == 0
            &&& next.stage == (StageView::WritingList { list_path: path })
            &&& next_writer.paths.manifests == paths.manifests
            &&& next_writer.paths.manifest_lists == paths.manifest_lists + 1
            &&& next_writer.paths.metadata_dir == paths.metadata_dir
            &&& next_writer.paths.uuid == paths.uuid
            &&& next_writer.table_location == writer.table_location
            &&& next_writer.format_version == writer.format_version
            &&& next.entries == run.entries
            &&& next.written == run.written
        }),
{
    assert forall|n: int| 0 <= n <= run.entries.len() implies row_count(
        #[trigger] run.entries.take(n),
    ) == 0 by {}
}

/// A run that has no number left, or more rows than 64 bits can count, ends
/// without writing.
pub proof fn without_numbers_nothing_is_written(
    writer: IcebergChangelogWriterView,
    run: ChangelogWriteView,
    next_writer: IcebergChangelogWriterView,
    next: ChangelogWriteView,
    step: StepView,
)
    requires
        begins_writing(writer, run, next_writer, next, step),
        writer.paths.manifest_lists >= 0xffff_ffff_ffff_ffff || writer.paths.manifests
            >= 0xffff_ffff_ffff_ffff || !rows_fit(run.entries),
    ensures
        step is Overflow,
        next.stage is Finished,
        next.pending is None,
        only_moves(writer, run, next_writer, next),
{
}

/// Once the manifest is written, the manifest list is: it has the one summary.
pub proof fn a_list_follows_its_manifest(
    writer: IcebergChangelogWriterView,
    run: ChangelogWriteView,
    reply: ReplyView,
    next_writer: IcebergChangelogWriterView,
    next: ChangelogWriteView,
    step: StepView,
)
    requires
        transition(writer, run, reply, next_writer, next, step),
        run.stage is WritingManifest,
    ensures
        !(reply is Written) ==> fails(writer, run, next_writer, next, step),
        reply is Written ==> {
            let path = run.stage->WritingManifest_list_path;
            let bytes = next.pending->Some_0.1;
            &&& notes_its_file(writer, run, next_writer, next)
            &&& next.pending == Some((path, bytes))
            &&& avro_contents(bytes) == seq![
                manifest_file_record(run.stage->WritingManifest_summary),
            ]
            &&& step == StepView::Ask(RequestView::WriteFile { path, bytes })
            &&& next.stage == (StageView::WritingList { list_path: path })
        },
{
    if reply is Written {
        assert(manifest_file_records(seq![run.stage->WritingManifest_summary]) =~= seq![
            manifest_file_record(run.stage->WritingManifest_summary),
        ]);
    }
}

/// Once the list is written, the version hint is read.
pub proof fn the_hint_is_read_after_the_list(
    writer: IcebergChangelogWriterView,
    run: ChangelogWriteView,
    reply: ReplyView,
    next_writer: IcebergChangelogWriterView,
    next: ChangelogWriteView,
    step: StepView,
    list_path: Seq<char>,
)
    requires
        transition(writer, run, reply, next_writer, next, step),
        run.stage == (StageView::WritingList { list_path }),
    ensures
        !(reply is Written) ==> fails(writer, run, next_writer, next, step),
        reply is Written ==> {
            &&& notes_its_file(writer, run, next_writer, next)
            &&& step == StepView::Ask(
                RequestView::ReadFile { path: version_hint_file(writer.paths.metadata_dir) },
            )
            &&& next.stage == (StageView::ReadingHint { list_path })
        },
{
}

/// The document of the version in the hint is read for its table UUID. A hint
/// that is missing or holds no version leads to a fresh UUID.
pub proof fn the_hint_leads_to_a_document(
    writer: IcebergChangelogWriterView,
    run: ChangelogWriteView,
    reply: ReplyView,
    next_writer: IcebergChangelogWriterView,
    next: ChangelogWriteView,
    step: StepView,
    list_path: Seq<char>,
)
    requires
        transition(writer, run, reply, next_writer, next, step),
        run.stage == (StageView::ReadingHint { list_path }),
    ensures
        only_moves(writer, run, next_writer, next),
        ({
            let version = match reply {
                ReplyView::File(Some(hint)) => hinted_version(hint),
                _ => None,
            };
            match version {
                Some(id) => {
                    &&& step == StepView::Ask(
                        RequestView::ReadFile {
                            path: metadata_file(writer.paths.metadata_dir, id),
                        },
                    )
                    &&& next.stage == (StageView::ReadingDocument { list_path })
                },
                None => {
                    &&& step == StepView::Ask(RequestView::ReadClock)
                    &&& next.stage is ReadingClock
                    &&& next.stage->ReadingClock_list_path == list_path
                    &&& is_random_uuid(next.stage->ReadingClock_uuid)
                },
            }
        }),
{
}

/// The text of the former document is searched for its table UUID. A document
/// that is missing or no text leads to a fresh UUID.
pub proof fn the_document_leads_to_its_uuid(
    writer: IcebergChangelogWriterView,
    run: ChangelogWriteView,
    reply: ReplyView,
    next_writer: IcebergChangelogWriterView,
    next: ChangelogWriteView,
    step: StepView,
    list_path: Seq<char>,
)
    requires
        transition(writer, run, reply, next_writer, next, step),
        run.stage == (StageView::ReadingDocument { list_path }),
    ensures
        only_moves(writer, run, next_writer, next),
        ({
            let is_text = reply is File && reply->File_0 is Some && valid_utf8(reply->File_0->0);
            &&& is_text ==> {
                &&& step == StepView::Ask(
                    RequestView::ReadTableUuid { document: decode_utf8(reply->File_0->0) },
                )
                &&& next.stage == (StageView::ReadingUuid { list_path })
            }
            &&& !is_text ==> {
                &&& step == StepView::Ask(RequestView::ReadClock)
                &&& next.stage is ReadingClock
                &&& next.stage->ReadingClock_list_path == list_path
                &&& is_random_uuid(next.stage->ReadingClock_uuid)
            }
        }),
{
}

/// A table UUID that was found is kept, and otherwise there is a fresh one.
pub proof fn a_found_uuid_is_kept(
    writer: IcebergChangelogWriterView,
    run: ChangelogWriteView,
    reply: ReplyView,
    next_writer: IcebergChangelogWriterView,
    next: ChangelogWriteView,
    step: StepView,
    list_path: Seq<char>,
)
    requires
        transition(writer, run, reply, next_writer, next, step),
        run.stage == (StageView::ReadingUuid { list_path }),
    ensures
        only_moves(writer, run, next_writer, next),
        step == StepView::Ask(RequestView::ReadClock),
        next.stage is ReadingClock,
        next.stage->ReadingClock_list_path == list_path,
        match reply {
            ReplyView::TableUuid(Some(uuid)) => next.stage->ReadingClock_uuid == uuid,
            _ => is_random_uuid(next.stage->ReadingClock_uuid),
        },
{
}

/// Whether a document is the one for a run: it has the time that the clock
/// showed, the table UUID, the manifest list, the snapshot, and the table's
/// location and columns.
pub open spec fn is_document_of_run(
    metadata: IcebergMetadataView,
    writer: IcebergChangelogWriterView,
    run: ChangelogWriteView,
    list_path: Seq<char>,
    uuid: Seq<char>,
    timestamp_ms: u64,
) -> bool {
    let base = base_schema(run.table_schema);
    &&& metadata.format_version == writer.format_version
    &&& metadata.table_uuid == uuid
    &&& metadata.location == writer.table_location
    &&& metadata.last_updated_ms == timestamp_ms
    &&& metadata.last_sequence_number == run.latest_id
    &&& metadata.current_snapshot_id == run.latest_id
    &&& metadata.snapshots.len() == 1
    &&& metadata.snapshots[0].snapshot_id == run.latest_id
    &&& metadata.snapshots[0].sequence_number == run.latest_id
    &&& metadata.snapshots[0].timestamp_ms == timestamp_ms
    &&& metadata.snapshots[0].manifest_list == list_path
    &&& metadata.schemas.len() == 1
    &&& metadata.schemas[0] == changelog_schema(base)
    &&& metadata.current_schema_id == base.schema_id
    &&& metadata.snapshots[0].schema_id == base.schema_id
    &&& metadata.partition_specs.len() == 1
    &&& metadata.partition_specs[0].fields == partition_fields(
        texts_of(run.table_schema.partition_keys@),
        base.fields,
    )
}

/// The time that a reply of the clock shows: 0 where it shows none.
pub open spec fn shown_time(reply: ReplyView) -> u64 {
    match reply {
        ReplyView::Clock(ms) => ms,
        _ => 0,
    }
}

/// The document that a run writes has the time that the clock showed, or 0 where
/// the clock failed, and goes to the path of its snapshot.
pub proof fn the_clock_dates_the_document(
    writer: IcebergChangelogWriterView,
    run: ChangelogWriteView,
    reply: ReplyView,
    next_writer: IcebergChangelogWriterView,
    next: ChangelogWriteView,
    step: StepView,
    list_path: Seq<char>,
    uuid: Seq<char>,
)
    requires
        transition(writer, run, reply, next_writer, next, step),
        run.stage == (StageView::ReadingClock { list_path, uuid }),
    ensures
        only_moves(writer, run, next_writer, next),
        next.stage is WritingDocument,
        exists|metadata: IcebergMetadataView|
            {
                let path = metadata_file(writer.paths.metadata_dir, run.latest_id);
                let bytes = encode_utf8(json_pretty(metadata_tree(metadata)));
                &&& #[trigger] is_document_of_run(
                    metadata,
                    writer,
                    run,
                    list_path,
                    uuid,
                    shown_time(reply),
                )
                &&& next.pending == Some((path, bytes))
                &&& step == StepView::Ask(RequestView::WriteFile { path, bytes })
            },
{
    let timestamp_ms = shown_time(reply);
    let metadata = run_metadata(
        writer,
        run.table_schema,
        run.latest_id,
        list_path,
        uuid,
        timestamp_ms,
    );
    assert(is_document_of_run(metadata, writer, run, list_path, uuid, timestamp_ms));
}

/// Once the document is written, the version hint is: it names the snapshot, and
/// nothing else.
pub proof fn the_hint_follows_the_document(
    writer: IcebergChangelogWriterView,
    run: ChangelogWriteView,
    reply: ReplyView,
    next_writer: IcebergChangelogWriterView,
    next: ChangelogWriteView,
    step: StepView,
)
    requires
        transition(writer, run, reply, next_writer, next, step),
        run.stage is WritingDocument,
    ensures
        !(reply is Written) ==> fails(writer, run, next_writer, next, step),
        reply is Written ==> {
            let path = version_hint_file(writer.paths.metadata_dir);
            let bytes = encode_utf8(int_text(run.latest_id as int));
            &&& notes_its_file(writer, run, next_writer, next)
            &&& next.pending == Some((path, bytes))
            &&& step == StepView::Ask(RequestView::WriteFile { path, bytes })
            &&& next.stage is WritingHint
        },
{
}

/// Once the hint is written, the run has succeeded. A run that is over does
/// nothing more.
pub proof fn the_hint_ends_the_run(
    writer: IcebergChangelogWriterView,
    run: ChangelogWriteView,
    reply: ReplyView,
    next_writer: IcebergChangelogWriterView,
    next: ChangelogWriteView,
    step: StepView,
)
    requires
        transition(writer, run, reply, next_writer, next, step),
        run.stage is WritingHint || run.stage is Finished,
    ensures
        next.stage is Finished,
        next.pending is None,
        run.stage is WritingHint && reply is Written ==> step == StepView::Done(true)
            && notes_its_file(writer, run, next_writer, next),
        run.stage is WritingHint && !(reply is Written) ==> fails(
            writer,
            run,
            next_writer,
            next,
            step,
        ),
        run.stage is Finished ==> fails(writer, run, next_writer, next, step),
{
}

} // verus!
