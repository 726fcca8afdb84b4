//! The commit callback that keeps the Iceberg changelog of a table.
use vstd::prelude::*;

use crate::commit_callback::CommitCallback;
use crate::ids::is_random_uuid;
use crate::table::{Snapshot, TableSchema};
use crate::write::IcebergChangelogWriter;

verus! {

/// The metadata directory of a table's changelog.
pub open spec fn changelog_metadata_dir(table_location: Seq<char>) -> Seq<char> {
    table_location + "_changelog/metadata"@
}

/// Writes a companion Iceberg changelog table after every commit that produces
/// a Paimon changelog. A commit without a changelog leaves the companion table
/// alone.
#[derive(Debug)]
pub struct IcebergChangelogCommitCallback {
    table_location: String,
    changelog_metadata_dir: String,
    format_version: i32,
    table_schema: TableSchema,
}

/// What an [`IcebergChangelogCommitCallback`] holds.
#[verifier::ext_equal]
pub struct IcebergChangelogCommitCallbackView {
    pub table_location: Seq<char>,
    pub changelog_metadata_dir: Seq<char>,
    pub format_version: i32,
    pub table_schema: TableSchema,
}

impl View for IcebergChangelogCommitCallback {
    type V = IcebergChangelogCommitCallbackView;

    closed spec fn view(&self) -> IcebergChangelogCommitCallbackView {
        IcebergChangelogCommitCallbackView {
            table_location: self.table_location@,
            changelog_metadata_dir: self.changelog_metadata_dir@,
            format_version: self.format_version,
            table_schema: self.table_schema,
        }
    }
}

/// What there is to do after a commit with a changelog: make sure that the
/// directory exists, and then have the writer write the metadata of the
/// snapshot.
#[derive(Debug)]
pub struct ChangelogWork {
    pub directory: String,
    pub writer: IcebergChangelogWriter,
    pub snapshot_id: i64,
}

impl IcebergChangelogCommitCallback {
    /// The Iceberg format version that is written by default: every Iceberg
    /// reader supports it.
    pub const DEFAULT_FORMAT_VERSION: i32 = 2;

    /// Builds a callback for the table at `table_location`, with the default
    /// format version.
    pub fn new(table_location: &str, table_schema: TableSchema) -> (r: Self)
        ensures
            r@ == (IcebergChangelogCommitCallbackView {
                table_location: table_location@,
                changelog_metadata_dir: changelog_metadata_dir(table_location@),
                format_version: 2,
                table_schema,
            }),
    {
        Self::with_format_version(table_location, table_schema, Self::DEFAULT_FORMAT_VERSION)
    }

    /// Builds a callback for the table at `table_location`, with the given
    /// format version.
    pub fn with_format_version(
        table_location: &str,
        table_schema: TableSchema,
        format_version: i32,
    ) -> (r: Self)
        ensures
            r@ == (IcebergChangelogCommitCallbackView {
                table_location: table_location@,
                changelog_metadata_dir: changelog_metadata_dir(table_location@),
                format_version,
                table_schema,
            }),
    {
        let mut changelog_metadata_dir = table_location.to_owned();
        changelog_metadata_dir.append("_changelog/metadata");
        IcebergChangelogCommitCallback {
            table_location: table_location.to_owned(),
            changelog_metadata_dir,
            format_version,
            table_schema,
        }
    }

    /// The schema of the table.
    pub fn table_schema(&self) -> (r: &TableSchema)
        ensures
            *r == self@.table_schema,
    {
        &self.table_schema
    }
}

impl CommitCallback for IcebergChangelogCommitCallback {
    type Work = ChangelogWork;

    fn call(&self, snapshot: &Snapshot) -> (r: Option<ChangelogWork>)
        ensures
            r is Some <==> snapshot@.changelog_manifest_list is Some,
            r matches Some(work) ==> {
                &&& work.directory@ == self@.changelog_metadata_dir + "/"@
                &&& work.snapshot_id == snapshot@.id
                &&& work.writer@.table_location == self@.table_location
                &&& work.writer@.format_version == self@.format_version
                &&& work.writer@.paths.metadata_dir == self@.changelog_metadata_dir
                &&& is_random_uuid(work.writer@.paths.uuid)
                &&& work.writer@.paths.manifest_lists == 0
                &&& work.writer@.paths.manifests == 0
            },
    {
        if snapshot.changelog_manifest_list.is_none() {
            return None;
        }
        let mut directory = self.changelog_metadata_dir.clone();
        directory.append("/");
        let writer = IcebergChangelogWriter::new(
            self.table_location.as_str(),
            self.changelog_metadata_dir.as_str(),
            self.format_version,
        );
        Some(ChangelogWork { directory, writer, snapshot_id: snapshot.id })
    }
}

} // verus!
