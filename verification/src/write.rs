//! The run that writes the Iceberg changelog metadata of one Paimon snapshot.
//!
//! A run decides what to read and to write; it does no input or output itself.
//! [`IcebergChangelogWriter::write`] begins one and says what it needs first,
//! and [`IcebergChangelogWriter::resume`] takes the answer and says what it
//! needs next.
use vstd::prelude::*;
use vstd::utf8::{decode_utf8, encode_utf8, valid_utf8};

use crate::changelog::{
    added_entries, base_schema, build_base_schema, build_changelog_schema, build_partition_fields,
    changelog_schema, collect_entries, partition_fields, rows_fit, schema_fits,
    schema_is_convertible, summarize_manifest, summary_of_rows, total_rows,
};
use crate::document::{is_read_back, metadata_tree};
use crate::error::MetadataError;
use crate::ids::{is_random_uuid, random_uuid};
use crate::json::json_pretty;
use crate::manifest::{
    all_writable, entry_records, entry_views, is_container_of, manifest_bytes,
    manifest_file_records, manifest_file_views, manifest_list_bytes, IcebergManifestEntry,
    IcebergManifestEntryView, IcebergManifestFileMeta, IcebergManifestFileMetaView,
    ICEBERG_MANIFEST_ENTRY_SCHEMA, ICEBERG_MANIFEST_LIST_SCHEMA,
};
use crate::metadata::{changelog_metadata, IcebergMetadata, IcebergMetadataView};
use crate::path_factory::{
    manifest_file, manifest_list_file, metadata_file, version_hint_file, IcebergPathFactory,
    IcebergPathFactoryView,
};
use crate::table::{
    manifest_entry_views, text_of, texts_of, ManifestEntry, ManifestEntryView, Snapshot,
    SnapshotView, TableSchema,
};
use crate::text::{i64_text, int_text, parse_i64, parsed_i64, text_bytes, trim, trimmed, utf8_text};

verus! {

// ---------------------------------------------------------------------------
// What passes between a run and its surroundings
// ---------------------------------------------------------------------------

/// What a run needs from its surroundings.
#[derive(Debug)]
pub enum Request {
    /// Say whether the file exists.
    CheckExists { path: String },
    /// Say which is the earliest snapshot that the table retains.
    FindEarliestSnapshot,
    /// Load a snapshot of the table.
    LoadSnapshot { id: i64 },
    /// Read a manifest list of the table: the names of its manifests.
    ReadManifestList { path: String },
    /// Read a manifest of the table: its entries.
    ReadManifest { path: String },
    /// Write a file.
    WriteFile { path: String, bytes: Vec<u8> },
    /// Read a file, where it exists.
    ReadFile { path: String },
    /// Read the table UUID in a metadata document, where the text is one.
    ReadTableUuid { document: String },
    /// Say how many milliseconds have passed since 1970.
    ReadClock,
}

/// The answer to a request.
#[derive(Debug)]
pub enum Reply {
    Exists(bool),
    EarliestSnapshot(Option<i64>),
    LoadedSnapshot(Snapshot),
    Manifests(Vec<String>),
    Entries(Vec<ManifestEntry>),
    Written,
    File(Option<Vec<u8>>),
    TableUuid(Option<String>),
    Clock(u64),
    /// What was asked for failed.
    Failed,
}

/// What a run does next.
#[derive(Debug)]
pub enum Step {
    /// It needs something.
    Ask(Request),
    /// It is over: metadata was written, or the snapshot was skipped.
    Done(bool),
    /// It is over: the failure that it was told of is its result.
    Failed,
    /// It is over: a file could not be encoded.
    Invalid(MetadataError),
    /// It is over: an id or a count is too large for its type.
    Overflow,
}

/// What a [`Request`] holds.
#[verifier::ext_equal]
pub enum RequestView {
    CheckExists { path: Seq<char> },
    FindEarliestSnapshot,
    LoadSnapshot { id: i64 },
    ReadManifestList { path: Seq<char> },
    ReadManifest { path: Seq<char> },
    WriteFile { path: Seq<char>, bytes: Seq<u8> },
    ReadFile { path: Seq<char> },
    ReadTableUuid { document: Seq<char> },
    ReadClock,
}

/// What a [`Reply`] holds.
#[verifier::ext_equal]
pub enum ReplyView {
    Exists(bool),
    EarliestSnapshot(Option<i64>),
    LoadedSnapshot(SnapshotView),
    Manifests(Seq<Seq<char>>),
    Entries(Seq<ManifestEntryView>),
    Written,
    File(Option<Seq<u8>>),
    TableUuid(Option<Seq<char>>),
    Clock(u64),
    Failed,
}

/// What a [`Step`] holds.
#[verifier::ext_equal]
pub enum StepView {
    Ask(RequestView),
    Done(bool),
    Failed,
    Invalid,
    Overflow,
}

impl View for Request {
    type V = RequestView;

    open spec fn view(&self) -> RequestView {
        match *self {
            Request::CheckExists { path } => RequestView::CheckExists { path: path@ },
            Request::FindEarliestSnapshot => RequestView::FindEarliestSnapshot,
            Request::LoadSnapshot { id } => RequestView::LoadSnapshot { id },
            Request::ReadManifestList { path } => RequestView::ReadManifestList { path: path@ },
            Request::ReadManifest { path } => RequestView::ReadManifest { path: path@ },
            Request::WriteFile { path, bytes } => RequestView::WriteFile {
                path: path@,
                bytes: bytes@,
            },
            Request::ReadFile { path } => RequestView::ReadFile { path: path@ },
            Request::ReadTableUuid { document } => RequestView::ReadTableUuid {
                document: document@,
            },
            Request::ReadClock => RequestView::ReadClock,
        }
    }
}

impl View for Reply {
    type V = ReplyView;

    open spec fn view(&self) -> ReplyView {
        match *self {
            Reply::Exists(exists_) => ReplyView::Exists(exists_),
            Reply::EarliestSnapshot(id) => ReplyView::EarliestSnapshot(id),
            Reply::LoadedSnapshot(snapshot) => ReplyView::LoadedSnapshot(snapshot@),
            Reply::Manifests(names) => ReplyView::Manifests(texts_of(names@)),
            Reply::Entries(entries) => ReplyView::Entries(manifest_entry_views(entries@)),
            Reply::Written => ReplyView::Written,
            Reply::File(Some(bytes)) => ReplyView::File(Some(bytes@)),
            Reply::File(None) => ReplyView::File(None),
            Reply::TableUuid(uuid) => ReplyView::TableUuid(text_of(uuid)),
            Reply::Clock(ms) => ReplyView::Clock(ms),
            Reply::Failed => ReplyView::Failed,
        }
    }
}

impl View for Step {
    type V = StepView;

    open spec fn view(&self) -> StepView {
        match *self {
            Step::Ask(request) => StepView::Ask(request@),
            Step::Done(written) => StepView::Done(written),
            Step::Failed => StepView::Failed,
            Step::Invalid(_) => StepView::Invalid,
            Step::Overflow => StepView::Overflow,
        }
    }
}

// ---------------------------------------------------------------------------
// The writer and its runs
// ---------------------------------------------------------------------------

/// Writes Iceberg changelog metadata for the snapshots of one Paimon table.
///
/// For each snapshot the writer:
///
/// 1. Skips where the snapshot's metadata document already exists.
/// 2. Walks all retained snapshots up to this one and collects the files that
///    their changelog manifests add.
/// 3. Writes a manifest and a manifest list.
/// 4. Writes the metadata document.
/// 5. Updates the version hint.
#[derive(Debug)]
pub struct IcebergChangelogWriter {
    table_location: String,
    path_factory: IcebergPathFactory,
    format_version: i32,
}

/// What an [`IcebergChangelogWriter`] holds.
#[verifier::ext_equal]
pub struct IcebergChangelogWriterView {
    pub table_location: Seq<char>,
    pub paths: IcebergPathFactoryView,
    pub format_version: i32,
}

impl View for IcebergChangelogWriter {
    type V = IcebergChangelogWriterView;

    closed spec fn view(&self) -> IcebergChangelogWriterView {
        IcebergChangelogWriterView {
            table_location: self.table_location@,
            paths: self.path_factory@,
            format_version: self.format_version,
        }
    }
}

/// How far a run has come.
#[derive(Debug)]
enum Stage {
    CheckingTarget,
    FindingEarliest,
    LoadingSnapshot { id: i64 },
    ReadingList { id: i64 },
    ReadingManifest { id: i64, names: Vec<String>, next: usize },
    WritingManifest { summary: IcebergManifestFileMeta, list_path: String },
    WritingList { list_path: String },
    ReadingHint { list_path: String },
    ReadingDocument { list_path: String },
    ReadingUuid { list_path: String },
    ReadingClock { list_path: String, uuid: String },
    WritingDocument,
    WritingHint,
    Finished,
}

/// What the stage of a run holds.
#[verifier::ext_equal]
pub enum StageView {
    CheckingTarget,
    FindingEarliest,
    LoadingSnapshot { id: i64 },
    ReadingList { id: i64 },
    /// The manifest at `next` of the named ones is being read.
    ReadingManifest { id: i64, names: Seq<Seq<char>>, next: int },
    WritingManifest { summary: IcebergManifestFileMetaView, list_path: Seq<char> },
    WritingList { list_path: Seq<char> },
    ReadingHint { list_path: Seq<char> },
    ReadingDocument { list_path: Seq<char> },
    ReadingUuid { list_path: Seq<char> },
    ReadingClock { list_path: Seq<char>, uuid: Seq<char> },
    WritingDocument,
    WritingHint,
    Finished,
}

/// One run of an [`IcebergChangelogWriter`].
pub struct ChangelogWrite<'a> {
    latest_id: i64,
    table_schema: &'a TableSchema,
    stage: Stage,
    entries: Vec<IcebergManifestEntry>,
    pending: Ghost<Option<(Seq<char>, Seq<u8>)>>,
    written: Ghost<Seq<(Seq<char>, Seq<u8>)>>,
}

/// What a [`ChangelogWrite`] holds: the snapshot that it is for, how far it
/// has come, the rows that it has collected, the file that it is writing, and
/// the files that it has written, in order, with their contents.
#[verifier::ext_equal]
pub struct ChangelogWriteView {
    pub latest_id: i64,
    pub table_schema: TableSchema,
    pub stage: StageView,
    pub entries: Seq<IcebergManifestEntryView>,
    pub pending: Option<(Seq<char>, Seq<u8>)>,
    pub written: Seq<(Seq<char>, Seq<u8>)>,
}

impl Stage {
    closed spec fn model(self) -> StageView {
        match self {
            Stage::CheckingTarget => StageView::CheckingTarget,
            Stage::FindingEarliest => StageView::FindingEarliest,
            Stage::LoadingSnapshot { id } => StageView::LoadingSnapshot { id },
            Stage::ReadingList { id } => StageView::ReadingList { id },
            Stage::ReadingManifest { id, names, next } => StageView::ReadingManifest {
                id,
                names: texts_of(names@),
                next: next as int,
            },
            Stage::WritingManifest { summary, list_path } => StageView::WritingManifest {
                summary: summary@,
                list_path: list_path@,
            },
            Stage::WritingList { list_path } => StageView::WritingList { list_path: list_path@ },
            Stage::ReadingHint { list_path } => StageView::ReadingHint { list_path: list_path@ },
            Stage::ReadingDocument { list_path } => StageView::ReadingDocument {
                list_path: list_path@,
            },
            Stage::ReadingUuid { list_path } => StageView::ReadingUuid { list_path: list_path@ },
            Stage::ReadingClock { list_path, uuid } => StageView::ReadingClock {
                list_path: list_path@,
                uuid: uuid@,
            },
            Stage::WritingDocument => StageView::WritingDocument,
            Stage::WritingHint => StageView::WritingHint,
            Stage::Finished => StageView::Finished,
        }
    }
}

impl<'a> View for ChangelogWrite<'a> {
    type V = ChangelogWriteView;

    closed spec fn view(&self) -> ChangelogWriteView {
        ChangelogWriteView {
            latest_id: self.latest_id,
            table_schema: *self.table_schema,
            stage: self.stage.model(),
            entries: entry_views(self.entries@),
            pending: self.pending@,
            written: self.written@,
        }
    }
}

// ---------------------------------------------------------------------------
// What a run does
// ---------------------------------------------------------------------------

/// The path of a file in the table's manifest directory.
pub open spec fn table_manifest_path(table: Seq<char>, name: Seq<char>) -> Seq<char> {
    table + "/manifest/"@ + name
}

/// The version that a version hint holds: its bytes are a text, and without
/// the white space around it the text is an integer.
pub open spec fn hinted_version(hint: Seq<u8>) -> Option<i64> {
    if valid_utf8(hint) {
        parsed_i64(trimmed(decode_utf8(hint)))
    } else {
        None
    }
}

/// The contents of the version hint for a snapshot.
pub open spec fn version_hint(snapshot_id: i64) -> Seq<u8> {
    encode_utf8(int_text(snapshot_id as int))
}

/// The metadata of a snapshot.
pub open spec fn run_metadata(
    writer: IcebergChangelogWriterView,
    table_schema: TableSchema,
    latest_id: i64,
    list_path: Seq<char>,
    uuid: Seq<char>,
    timestamp_ms: u64,
) -> IcebergMetadataView {
    let base = base_schema(table_schema);
    changelog_metadata(
        writer.format_version,
        uuid,
        writer.table_location,
        latest_id,
        base,
        changelog_schema(base),
        partition_fields(texts_of(table_schema.partition_keys@), base.fields),
        list_path,
        timestamp_ms,
    )
}

/// The contents of a snapshot's metadata document.
pub open spec fn document_bytes(
    writer: IcebergChangelogWriterView,
    table_schema: TableSchema,
    latest_id: i64,
    list_path: Seq<char>,
    uuid: Seq<char>,
    timestamp_ms: u64,
) -> Seq<u8> {
    let metadata = run_metadata(writer, table_schema, latest_id, list_path, uuid, timestamp_ms);
    encode_utf8(json_pretty(metadata_tree(metadata)))
}

/// A run at its end.
pub open spec fn finished(run: ChangelogWriteView) -> ChangelogWriteView {
    ChangelogWriteView { stage: StageView::Finished, pending: None, ..run }
}

/// A run whose file has been written.
pub open spec fn acknowledged(run: ChangelogWriteView) -> ChangelogWriteView {
    ChangelogWriteView {
        pending: None,
        written: run.written.push(run.pending->Some_0),
        ..run
    }
}

/// The run enters a stage in which it needs something.
pub open spec fn asks(
    run: ChangelogWriteView,
    stage: StageView,
    request: RequestView,
    next: ChangelogWriteView,
    step: StepView,
) -> bool {
    &&& next == (ChangelogWriteView { stage, ..run })
    &&& step == StepView::Ask(request)
}

/// The run enters a stage in which it writes a file.
pub open spec fn writes(
    run: ChangelogWriteView,
    stage: StageView,
    path: Seq<char>,
    bytes: Seq<u8>,
    next: ChangelogWriteView,
    step: StepView,
) -> bool {
    &&& next == (ChangelogWriteView { stage, pending: Some((path, bytes)), ..run })
    &&& step == StepView::Ask(RequestView::WriteFile { path, bytes })
}

/// The run has collected its rows and goes on to write them: a manifest where
/// there is a row, else the manifest list. A step that cannot be taken for
/// want of numbers takes none.
pub open spec fn begins_writing(
    writer: IcebergChangelogWriterView,
    run: ChangelogWriteView,
    next_writer: IcebergChangelogWriterView,
    next: ChangelogWriteView,
    step: StepView,
) -> bool {
    let paths = writer.paths;
    let list_path = manifest_list_file(paths.metadata_dir, paths.uuid, paths.manifest_lists + 1);
    let bytes = next.pending->Some_0.1;
    if paths.manifest_lists >= u64::MAX || paths.manifests >= u64::MAX || !rows_fit(run.entries) {
        &&& next_writer == writer
        &&& next == finished(run)
        &&& step == StepView::Overflow
    } else if run.entries.len() == 0 {
        &&& next_writer == (IcebergChangelogWriterView {
            paths: IcebergPathFactoryView { manifest_lists: paths.manifest_lists + 1, ..paths },
            ..writer
        })
        &&& is_container_of(bytes, ICEBERG_MANIFEST_LIST_SCHEMA@, Seq::empty())
        &&& writes(run, StageView::WritingList { list_path }, list_path, bytes, next, step)
    } else {
        let path = manifest_file(paths.metadata_dir, paths.uuid, paths.manifests + 1);
        let summary = summary_of_rows(path, bytes.len(), run.latest_id, run.entries);
        &&& next_writer == (IcebergChangelogWriterView {
            paths: IcebergPathFactoryView {
                manifest_lists: paths.manifest_lists + 1,
                manifests: paths.manifests + 1,
                ..paths
            },
            ..writer
        })
        &&& is_container_of(bytes, ICEBERG_MANIFEST_ENTRY_SCHEMA@, entry_records(run.entries))
        &&& writes(
            run,
            StageView::WritingManifest { summary, list_path },
            path,
            bytes,
            next,
            step,
        )
    }
}

/// The run goes on with the snapshot `id`, or, where that is past the last
/// one, with writing.
pub open spec fn walks_on(
    writer: IcebergChangelogWriterView,
    run: ChangelogWriteView,
    id: int,
    next_writer: IcebergChangelogWriterView,
    next: ChangelogWriteView,
    step: StepView,
) -> bool {
    if id <= run.latest_id {
        &&& next_writer == writer
        &&& asks(
            run,
            StageView::LoadingSnapshot { id: id as i64 },
            RequestView::LoadSnapshot { id: id as i64 },
            next,
            step,
        )
    } else {
        begins_writing(writer, run, next_writer, next, step)
    }
}

/// The run goes on with the manifest at `at` of a snapshot's manifests, or,
/// where that is past the last one, with the next snapshot.
pub open spec fn reads_on(
    writer: IcebergChangelogWriterView,
    run: ChangelogWriteView,
    id: i64,
    names: Seq<Seq<char>>,
    at: int,
    next_writer: IcebergChangelogWriterView,
    next: ChangelogWriteView,
    step: StepView,
) -> bool {
    if at < names.len() {
        &&& next_writer == writer
        &&& asks(
            run,
            StageView::ReadingManifest { id, names, next: at },
            RequestView::ReadManifest {
                path: table_manifest_path(writer.table_location, names[at]),
            },
            next,
            step,
        )
    } else {
        walks_on(writer, run, id + 1, next_writer, next, step)
    }
}

/// The run goes on with a fresh table UUID.
pub open spec fn draws_uuid(
    run: ChangelogWriteView,
    list_path: Seq<char>,
    next: ChangelogWriteView,
    step: StepView,
) -> bool {
    &&& next.stage is ReadingClock
    &&& is_random_uuid(next.stage->ReadingClock_uuid)
    &&& asks(
        run,
        StageView::ReadingClock { list_path, uuid: next.stage->ReadingClock_uuid },
        RequestView::ReadClock,
        next,
        step,
    )
}

/// The run ends.
pub open spec fn ends(
    run: ChangelogWriteView,
    outcome: StepView,
    next: ChangelogWriteView,
    step: StepView,
) -> bool {
    &&& next == finished(run)
    &&& step == outcome
}

/// What a run does with a reply. A reply that does not answer what the run
/// asked for counts as a failure of it.
///
/// What is written as a document is read back as that document.
///
/// A failure to load a snapshot means that the snapshot has expired, and it is
/// skipped. A failure to find the former table UUID means that there is none,
/// and a failure of the clock that it stands at 0. Any other failure ends the
/// run.
pub open spec fn transition(
    writer: IcebergChangelogWriterView,
    run: ChangelogWriteView,
    reply: ReplyView,
    next_writer: IcebergChangelogWriterView,
    next: ChangelogWriteView,
    step: StepView,
) -> bool {
    let dir = writer.paths.metadata_dir;
    match run.stage {
        StageView::CheckingTarget => {
            &&& next_writer == writer
            &&& match reply {
                ReplyView::Exists(true) => ends(run, StepView::Done(false), next, step),
                ReplyView::Exists(false) => asks(
                    run,
                    StageView::FindingEarliest,
                    RequestView::FindEarliestSnapshot,
                    next,
                    step,
                ),
                _ => ends(run, StepView::Failed, next, step),
            }
        },
        StageView::FindingEarliest => match reply {
            ReplyView::EarliestSnapshot(Some(id)) => if schema_fits(run.table_schema) {
                walks_on(writer, run, id as int, next_writer, next, step)
            } else {
                next_writer == writer && ends(run, StepView::Overflow, next, step)
            },
            ReplyView::EarliestSnapshot(None) => {
                next_writer == writer && ends(run, StepView::Done(false), next, step)
            },
            _ => next_writer == writer && ends(run, StepView::Failed, next, step),
        },
        StageView::LoadingSnapshot { id } => match reply {
            ReplyView::LoadedSnapshot(
                SnapshotView { changelog_manifest_list: Some(name), .. },
            ) => {
                &&& next_writer == writer
                &&& asks(
                    run,
                    StageView::ReadingList { id },
                    RequestView::ReadManifestList {
                        path: table_manifest_path(writer.table_location, name),
                    },
                    next,
                    step,
                )
            },
            _ => walks_on(writer, run, id + 1, next_writer, next, step),
        },
        StageView::ReadingList { id } => match reply {
            ReplyView::Manifests(names) => reads_on(
                writer,
                run,
                id,
                names,
                0,
                next_writer,
                next,
                step,
            ),
            _ => next_writer == writer && ends(run, StepView::Failed, next, step),
        },
        StageView::ReadingManifest { id, names, next: at } => match reply {
            ReplyView::Entries(entries) => reads_on(
                writer,
                ChangelogWriteView {
                    entries: run.entries + added_entries(writer.table_location, id, entries),
                    ..run
                },
                id,
                names,
                at + 1,
                next_writer,
                next,
                step,
            ),
            _ => next_writer == writer && ends(run, StepView::Failed, next, step),
        },
        StageView::WritingManifest { summary, list_path } => {
            let bytes = next.pending->Some_0.1;
            &&& next_writer == writer
            &&& match reply {
                ReplyView::Written => {
                    &&& is_container_of(
                        bytes,
                        ICEBERG_MANIFEST_LIST_SCHEMA@,
                        manifest_file_records(seq![summary]),
                    )
                    &&& writes(
                        acknowledged(run),
                        StageView::WritingList { list_path },
                        list_path,
                        bytes,
                        next,
                        step,
                    )
                },
                _ => ends(run, StepView::Failed, next, step),
            }
        },
        StageView::WritingList { list_path } => {
            &&& next_writer == writer
            &&& match reply {
                ReplyView::Written => asks(
                    acknowledged(run),
                    StageView::ReadingHint { list_path },
                    RequestView::ReadFile { path: version_hint_file(dir) },
                    next,
                    step,
                ),
                _ => ends(run, StepView::Failed, next, step),
            }
        },
        StageView::ReadingHint { list_path } => {
            &&& next_writer == writer
            &&& if reply is File && reply->File_0 is Some && hinted_version(
                reply->File_0->Some_0,
            ) is Some {
                asks(
                    run,
                    StageView::ReadingDocument { list_path },
                    RequestView::ReadFile {
                        path: metadata_file(dir, hinted_version(reply->File_0->Some_0)->Some_0),
                    },
                    next,
                    step,
                )
            } else {
                draws_uuid(run, list_path, next, step)
            }
        },
        StageView::ReadingDocument { list_path } => {
            &&& next_writer == writer
            &&& if reply is File && reply->File_0 is Some && valid_utf8(reply->File_0->Some_0) {
                asks(
                    run,
                    StageView::ReadingUuid { list_path },
                    RequestView::ReadTableUuid { document: decode_utf8(reply->File_0->Some_0) },
                    next,
                    step,
                )
            } else {
                draws_uuid(run, list_path, next, step)
            }
        },
        StageView::ReadingUuid { list_path } => {
            &&& next_writer == writer
            &&& match reply {
                ReplyView::TableUuid(Some(uuid)) => asks(
                    run,
                    StageView::ReadingClock { list_path, uuid },
                    RequestView::ReadClock,
                    next,
                    step,
                ),
                _ => draws_uuid(run, list_path, next, step),
            }
        },
        StageView::ReadingClock { list_path, uuid } => {
            let timestamp_ms = match reply {
                ReplyView::Clock(ms) => ms,
                _ => 0,
            };
            &&& next_writer == writer
            &&& is_read_back(
                run_metadata(
                    writer,
                    run.table_schema,
                    run.latest_id,
                    list_path,
                    uuid,
                    timestamp_ms,
                ),
            )
            &&& writes(
                run,
                StageView::WritingDocument,
                metadata_file(dir, run.latest_id),
                document_bytes(
                    writer,
                    run.table_schema,
                    run.latest_id,
                    list_path,
                    uuid,
                    timestamp_ms,
                ),
                next,
                step,
            )
        },
        StageView::WritingDocument => {
            &&& next_writer == writer
            &&& match reply {
                ReplyView::Written => writes(
                    acknowledged(run),
                    StageView::WritingHint,
                    version_hint_file(dir),
                    version_hint(run.latest_id),
                    next,
                    step,
                ),
                _ => ends(run, StepView::Failed, next, step),
            }
        },
        StageView::WritingHint => {
            &&& next_writer == writer
            &&& match reply {
                ReplyView::Written => ends(acknowledged(run), StepView::Done(true), next, step),
                _ => ends(run, StepView::Failed, next, step),
            }
        },
        StageView::Finished => next_writer == writer && ends(run, StepView::Failed, next, step),
    }
}

/// The version that a version hint holds.
pub fn parse_version_hint(hint: &Vec<u8>) -> (r: Option<i64>)
    ensures
        r == hinted_version(hint@),
{
    match utf8_text(hint.as_slice()) {
        Some(text) => parse_i64(trim(text)),
        None => None,
    }
}

/// The text of some bytes, where they are one.
fn owned_text(bytes: &Vec<u8>) -> (r: Option<String>)
    ensures
        text_of(r) == if valid_utf8(bytes@) {
            Some(decode_utf8(bytes@))
        } else {
            None
        },
{
    match utf8_text(bytes.as_slice()) {
        Some(text) => Some(text.to_owned()),
        None => None,
    }
}

/// The path of a file in a table's manifest directory.
fn manifest_path(table_location: &String, name: &String) -> (r: String)
    ensures
        r@ == table_manifest_path(table_location@, name@),
{
    let mut path = table_location.clone();
    path.append("/manifest/");
    path.append(name.as_str());
    path
}

impl<'a> ChangelogWrite<'a> {
    #[verifier::type_invariant]
    spec fn well_formed(self) -> bool {
        &&& all_writable(entry_views(self.entries@))
        &&& match self.stage {
            Stage::CheckingTarget => true,
            Stage::FindingEarliest => true,
            Stage::Finished => true,
            _ => schema_fits(*self.table_schema),
        }
        &&& match self.stage {
            Stage::LoadingSnapshot { id } => id <= self.latest_id,
            Stage::ReadingList { id } => id <= self.latest_id,
            Stage::ReadingManifest { id, names, next } => id <= self.latest_id && next
                < names.len(),
            _ => true,
        }
    }

    /// Ends the run.
    fn finish(self, step: Step) -> (r: (Self, Step))
        ensures
            ends(self@, step@, r.0@, r.1@),
    {
        proof {
            use_type_invariant(&self);
        }
        (ChangelogWrite { stage: Stage::Finished, pending: Ghost(None), ..self }, step)
    }
}

/// Rows for added files carry no statistics, so they can be written.
proof fn added_entries_are_writable(
    table: Seq<char>,
    snapshot_id: i64,
    entries: Seq<ManifestEntryView>,
)
    ensures
        all_writable(added_entries(table, snapshot_id, entries)),
    decreases entries.len(),
{
    if entries.len() > 0 {
        added_entries_are_writable(table, snapshot_id, entries.drop_last());
    }
}

/// A table UUID: the former one, or where there is none a fresh one.
fn get_or_create_table_uuid(former: Option<String>) -> (r: String)
    ensures
        match former {
            Some(uuid) => r@ == uuid@,
            None => is_random_uuid(r@),
        },
{
    match former {
        Some(uuid) => uuid,
        None => random_uuid(),
    }
}

impl IcebergChangelogWriter {
    /// Creates a writer.
    ///
    /// - `table_location`: the root of the Paimon table, without a trailing
    ///   slash.
    /// - `changelog_metadata_dir`: the metadata directory of the companion
    ///   table.
    /// - `format_version`: the Iceberg format version to write, 2 or 3.
    pub fn new(table_location: &str, changelog_metadata_dir: &str, format_version: i32) -> (r: Self)
        ensures
            r@.table_location == table_location@,
            r@.format_version == format_version,
            r@.paths.metadata_dir == changelog_metadata_dir@,
            is_random_uuid(r@.paths.uuid),
            r@.paths.manifest_lists == 0,
            r@.paths.manifests == 0,
    {
        IcebergChangelogWriter {
            table_location: table_location.to_owned(),
            path_factory: IcebergPathFactory::new(changelog_metadata_dir),
            format_version,
        }
    }

    /// Creates a writer for the metadata directory
    /// `<iceberg_db_path>/<table_name>_changelog/metadata`.
    pub fn from_table_location(
        table_location: &str,
        iceberg_db_path: &str,
        table_name: &str,
        format_version: i32,
    ) -> (r: Self)
        ensures
            r@.table_location == table_location@,
            r@.format_version == format_version,
            r@.paths.metadata_dir == iceberg_db_path@ + "/"@ + table_name@
                + "_changelog/metadata"@,
            is_random_uuid(r@.paths.uuid),
            r@.paths.manifest_lists == 0,
            r@.paths.manifests == 0,
    {
        let mut dir = iceberg_db_path.to_owned();
        dir.append("/");
        dir.append(table_name);
        dir.append("_changelog/metadata");
        Self::new(table_location, dir.as_str(), format_version)
    }

    /// Begins to write the metadata of a snapshot.
    pub fn write<'a>(&self, latest_snapshot_id: i64, table_schema: &'a TableSchema) -> (r: (
        ChangelogWrite<'a>,
        Step,
    ))
        ensures
            r.0@ == (ChangelogWriteView {
                latest_id: latest_snapshot_id,
                table_schema: *table_schema,
                stage: StageView::CheckingTarget,
                entries: Seq::empty(),
                pending: None,
                written: Seq::empty(),
            }),
            r.1@ == StepView::Ask(
                RequestView::CheckExists {
                    path: metadata_file(self@.paths.metadata_dir, latest_snapshot_id),
                },
            ),
    {
        let run = ChangelogWrite {
            latest_id: latest_snapshot_id,
            table_schema,
            stage: Stage::CheckingTarget,
            entries: Vec::new(),
            pending: Ghost(None),
            written: Ghost(Seq::empty()),
        };
        assert(run@.entries =~= Seq::empty());
        let path = self.path_factory.metadata_path(latest_snapshot_id);
        (run, Step::Ask(Request::CheckExists { path }))
    }

    /// Goes on from collecting rows to writing them.
    fn write_manifest_list<'a>(&mut self, run: ChangelogWrite<'a>) -> (r: (
        ChangelogWrite<'a>,
        Step,
    ))
        requires
            schema_fits(run@.table_schema),
        ensures
            begins_writing(old(self)@, run@, final(self)@, r.0@, r.1@),
    {
        proof {
            use_type_invariant(&run);
        }
        let ghost entries = run@.entries;
        if !self.path_factory.has_paths_left() {
            return run.finish(Step::Overflow);
        }
        let rows: i64 = match total_rows(&run.entries) {
            Some(rows) => rows,
            None => {
                return run.finish(Step::Overflow);
            },
        };
        if run.entries.len() == 0 {
            let none: Vec<IcebergManifestFileMeta> = Vec::new();
            let bytes = match manifest_list_bytes(&none) {
                Ok(bytes) => bytes,
                Err(error) => {
                    return run.finish(Step::Invalid(error));
                },
            };
            assert(manifest_file_records(manifest_file_views(none@)) =~= Seq::empty());
            let list_path = self.path_factory.next_manifest_list_path();
            let step = Step::Ask(Request::WriteFile { path: list_path.clone(), bytes });
            let pending = Ghost(Some((list_path@, bytes@)));
            (ChangelogWrite { stage: Stage::WritingList { list_path }, pending, ..run }, step)
        } else {
            let bytes = match manifest_bytes(&run.entries) {
                Ok(bytes) => bytes,
                Err(error) => {
                    return run.finish(Step::Invalid(error));
                },
            };
            let list_path = self.path_factory.next_manifest_list_path();
            let path = self.path_factory.next_manifest_path();
            let summary = summarize_manifest(
                path.clone(),
                bytes.len(),
                run.latest_id,
                run.entries.len(),
                rows,
            );
            assert(summary@ == summary_of_rows(path@, bytes@.len(), run.latest_id, entries));
            let pending = Ghost(Some((path@, bytes@)));
            let step = Step::Ask(Request::WriteFile { path, bytes });
            (
                ChangelogWrite {
                    stage: Stage::WritingManifest { summary, list_path },
                    pending,
                    ..run
                },
                step,
            )
        }
    }

    /// Goes on with a snapshot, or with writing where it is past the last one.
    fn load_snapshot<'a>(&mut self, run: ChangelogWrite<'a>, id: i64) -> (r: (
        ChangelogWrite<'a>,
        Step,
    ))
        requires
            schema_fits(run@.table_schema),
        ensures
            walks_on(old(self)@, run@, id as int, final(self)@, r.0@, r.1@),
    {
        proof {
            use_type_invariant(&run);
        }
        if id <= run.latest_id {
            (
                ChangelogWrite { stage: Stage::LoadingSnapshot { id }, ..run },
                Step::Ask(Request::LoadSnapshot { id }),
            )
        } else {
            self.write_manifest_list(run)
        }
    }

    /// Goes on with the snapshot after one that is not past the last one.
    fn next_snapshot<'a>(&mut self, run: ChangelogWrite<'a>, id: i64) -> (r: (
        ChangelogWrite<'a>,
        Step,
    ))
        requires
            schema_fits(run@.table_schema),
            id <= run@.latest_id,
        ensures
            walks_on(old(self)@, run@, id + 1, final(self)@, r.0@, r.1@),
    {
        if id < run.latest_id {
            self.load_snapshot(run, id + 1)
        } else {
            self.write_manifest_list(run)
        }
    }

    /// Goes on with a manifest of a snapshot.
    fn read_manifest<'a>(
        &mut self,
        run: ChangelogWrite<'a>,
        id: i64,
        names: Vec<String>,
        next: usize,
    ) -> (r: (ChangelogWrite<'a>, Step))
        requires
            schema_fits(run@.table_schema),
            id <= run@.latest_id,
            next <= names@.len(),
        ensures
            reads_on(
                old(self)@,
                run@,
                id,
                texts_of(names@),
                next as int,
                final(self)@,
                r.0@,
                r.1@,
            ),
    {
        proof {
            use_type_invariant(&run);
        }
        if next < names.len() {
            let path = manifest_path(&self.table_location, &names[next]);
            (
                ChangelogWrite { stage: Stage::ReadingManifest { id, names, next }, ..run },
                Step::Ask(Request::ReadManifest { path }),
            )
        } else {
            self.next_snapshot(run, id)
        }
    }

    /// Goes on with a table UUID.
    fn read_clock<'a>(run: ChangelogWrite<'a>, list_path: String, uuid: String) -> (r: (
        ChangelogWrite<'a>,
        Step,
    ))
        requires
            schema_fits(run@.table_schema),
        ensures
            asks(
                run@,
                StageView::ReadingClock { list_path: list_path@, uuid: uuid@ },
                RequestView::ReadClock,
                r.0@,
                r.1@,
            ),
    {
        proof {
            use_type_invariant(&run);
        }
        (
            ChangelogWrite { stage: Stage::ReadingClock { list_path, uuid }, ..run },
            Step::Ask(Request::ReadClock),
        )
    }

    /// Goes on to write the metadata document.
    fn write_document<'a>(
        &self,
        run: ChangelogWrite<'a>,
        list_path: String,
        uuid: String,
        timestamp_ms: u64,
    ) -> (r: (ChangelogWrite<'a>, Step))
        requires
            schema_fits(run@.table_schema),
        ensures
            is_read_back(
                run_metadata(
                    self@,
                    run@.table_schema,
                    run@.latest_id,
                    list_path@,
                    uuid@,
                    timestamp_ms,
                ),
            ),
            writes(
                run@,
                StageView::WritingDocument,
                metadata_file(self@.paths.metadata_dir, run@.latest_id),
                document_bytes(
                    self@,
                    run@.table_schema,
                    run@.latest_id,
                    list_path@,
                    uuid@,
                    timestamp_ms,
                ),
                r.0@,
                r.1@,
            ),
    {
        proof {
            use_type_invariant(&run);
        }
        let base = build_base_schema(run.table_schema);
        let changelog = build_changelog_schema(&base);
        let partition_fields = build_partition_fields(run.table_schema, &base);
        let metadata = IcebergMetadata::new_changelog(
            self.format_version,
            uuid,
            self.table_location.clone(),
            run.latest_id,
            &base,
            changelog,
            partition_fields,
            list_path,
            timestamp_ms,
        );
        let json = match metadata.to_json() {
            Ok(json) => json,
            Err(error) => {
                return run.finish(Step::Invalid(error));
            },
        };
        let path = self.path_factory.metadata_path(run.latest_id);
        let bytes = text_bytes(&json);
        let pending = Ghost(Some((path@, bytes@)));
        (
            ChangelogWrite { stage: Stage::WritingDocument, pending, ..run },
            Step::Ask(Request::WriteFile { path, bytes }),
        )
    }

    /// Takes the reply to what a run asked for, and goes on with the run.
    pub fn resume<'a>(&mut self, run: ChangelogWrite<'a>, reply: Reply) -> (r: (
        ChangelogWrite<'a>,
        Step,
    ))
        ensures
            transition(old(self)@, run@, reply@, final(self)@, r.0@, r.1@),
    {
        proof {
            use_type_invariant(&run);
        }
        let stage = run.stage;
        let run = ChangelogWrite { stage: Stage::Finished, ..run };
        match stage {
            Stage::CheckingTarget => match reply {
                Reply::Exists(true) => run.finish(Step::Done(false)),
                Reply::Exists(false) => (
                    ChangelogWrite { stage: Stage::FindingEarliest, ..run },
                    Step::Ask(Request::FindEarliestSnapshot),
                ),
                _ => run.finish(Step::Failed),
            },
            Stage::FindingEarliest => match reply {
                Reply::EarliestSnapshot(Some(id)) => if schema_is_convertible(run.table_schema) {
                    self.load_snapshot(run, id)
                } else {
                    run.finish(Step::Overflow)
                },
                Reply::EarliestSnapshot(None) => run.finish(Step::Done(false)),
                _ => run.finish(Step::Failed),
            },
            Stage::LoadingSnapshot { id } => match reply {
                Reply::LoadedSnapshot(
                    Snapshot { changelog_manifest_list: Some(name), .. },
                ) => {
                    let path = manifest_path(&self.table_location, &name);
                    (
                        ChangelogWrite { stage: Stage::ReadingList { id }, ..run },
                        Step::Ask(Request::ReadManifestList { path }),
                    )
                },
                _ => self.next_snapshot(run, id),
            },
            Stage::ReadingList { id } => match reply {
                Reply::Manifests(names) => self.read_manifest(run, id, names, 0),
                _ => run.finish(Step::Failed),
            },
            Stage::ReadingManifest { id, names, next } => match reply {
                Reply::Entries(manifest) => {
                    let mut entries = run.entries;
                    collect_entries(&self.table_location, id, &manifest, &mut entries);
                    proof {
                        added_entries_are_writable(
                            self.table_location@,
                            id,
                            manifest_entry_views(manifest@),
                        );
                    }
                    let run = ChangelogWrite { entries, ..run };
                    self.read_manifest(run, id, names, next + 1)
                },
                _ => run.finish(Step::Failed),
            },
            Stage::WritingManifest { summary, list_path } => match reply {
                Reply::Written => {
                    let mut summaries: Vec<IcebergManifestFileMeta> = Vec::new();
                    summaries.push(summary);
                    assert(manifest_file_views(summaries@) =~= seq![summary@]);
                    match manifest_list_bytes(&summaries) {
                        Ok(bytes) => {
                            let step = Step::Ask(
                                Request::WriteFile { path: list_path.clone(), bytes },
                            );
                            let next = ChangelogWrite {
                                pending: Ghost(Some((list_path@, bytes@))),
                                stage: Stage::WritingList { list_path },
                                written: Ghost(run.written@.push(run.pending@->Some_0)),
                                ..run
                            };
                            (next, step)
                        },
                        Err(error) => run.finish(Step::Invalid(error)),
                    }
                },
                _ => run.finish(Step::Failed),
            },
            Stage::WritingList { list_path } => match reply {
                Reply::Written => {
                    let path = self.path_factory.version_hint_path();
                    let next = ChangelogWrite {
                        stage: Stage::ReadingHint { list_path },
                        pending: Ghost(None),
                        written: Ghost(run.written@.push(run.pending@->Some_0)),
                        ..run
                    };
                    (next, Step::Ask(Request::ReadFile { path }))
                },
                _ => run.finish(Step::Failed),
            },
            Stage::ReadingHint { list_path } => {
                let version: Option<i64> = match reply {
                    Reply::File(Some(hint)) => parse_version_hint(&hint),
                    _ => None,
                };
                match version {
                    Some(version) => {
                        let path = self.path_factory.metadata_path(version);
                        (
                            ChangelogWrite { stage: Stage::ReadingDocument { list_path }, ..run },
                            Step::Ask(Request::ReadFile { path }),
                        )
                    },
                    None => Self::read_clock(run, list_path, get_or_create_table_uuid(None)),
                }
            },
            Stage::ReadingDocument { list_path } => {
                let document: Option<String> = match reply {
                    Reply::File(Some(bytes)) => owned_text(&bytes),
                    _ => None,
                };
                match document {
                    Some(document) => (
                        ChangelogWrite { stage: Stage::ReadingUuid { list_path }, ..run },
                        Step::Ask(Request::ReadTableUuid { document }),
                    ),
                    None => Self::read_clock(run, list_path, get_or_create_table_uuid(None)),
                }
            },
            Stage::ReadingUuid { list_path } => {
                let former: Option<String> = match reply {
                    Reply::TableUuid(former) => former,
                    _ => None,
                };
                Self::read_clock(run, list_path, get_or_create_table_uuid(former))
            },
            Stage::ReadingClock { list_path, uuid } => {
                let timestamp_ms: u64 = match reply {
                    Reply::Clock(ms) => ms,
                    _ => 0,
                };
                self.write_document(run, list_path, uuid, timestamp_ms)
            },
            Stage::WritingDocument => match reply {
                Reply::Written => {
                    let path = self.path_factory.version_hint_path();
                    let bytes = text_bytes(&i64_text(run.latest_id));
                    let next = ChangelogWrite {
                        stage: Stage::WritingHint,
                        pending: Ghost(Some((path@, bytes@))),
                        written: Ghost(run.written@.push(run.pending@->Some_0)),
                        ..run
                    };
                    (next, Step::Ask(Request::WriteFile { path, bytes }))
                },
                _ => run.finish(Step::Failed),
            },
            Stage::WritingHint => match reply {
                Reply::Written => {
                    let next = ChangelogWrite {
                        pending: Ghost(None),
                        written: Ghost(run.written@.push(run.pending@->Some_0)),
                        ..run
                    };
                    next.finish(Step::Done(true))
                },
                _ => run.finish(Step::Failed),
            },
            Stage::Finished => run.finish(Step::Failed),
        }
    }
}

} // verus!
