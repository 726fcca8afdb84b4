//! The parts of a Paimon table's own metadata that the Iceberg companion is
//! derived from: column types, the table schema, snapshots and manifests.
use vstd::prelude::*;

verus! {

/// A Paimon column type: its root and whether it admits NULL.
#[derive(Debug)]
pub struct DataType {
    pub nullable: bool,
    pub root: TypeRoot,
}

/// The kinds of Paimon column types.
#[derive(Debug)]
pub enum TypeRoot {
    Boolean,
    TinyInt,
    SmallInt,
    Int,
    BigInt,
    Float,
    Double,
    Date,
    Time,
    Char,
    VarChar,
    Binary,
    VarBinary,
    Blob,
    Decimal { precision: u32, scale: u32 },
    Timestamp { precision: u32 },
    LocalZonedTimestamp { precision: u32 },
    ArrayOf(Box<DataType>),
    MapOf(Box<DataType>, Box<DataType>),
    MultisetOf(Box<DataType>),
    VectorOf(Box<DataType>),
    Row(Vec<DataField>),
}

/// One column of a Paimon table, or one field of a row type.
#[derive(Debug)]
pub struct DataField {
    pub id: i32,
    pub name: String,
    pub data_type: DataType,
    pub description: Option<String>,
}

/// A version of a Paimon table's schema.
#[derive(Debug)]
pub struct TableSchema {
    pub id: i64,
    pub fields: Vec<DataField>,
    pub partition_keys: Vec<String>,
}

/// What a committed Paimon snapshot says that matters here: its id and the
/// name of its changelog manifest list, where the commit produced a changelog.
#[derive(Debug)]
pub struct Snapshot {
    pub id: i64,
    pub changelog_manifest_list: Option<String>,
}

/// Whether a manifest entry adds or deletes its file.
#[derive(Debug, Clone, Copy, PartialEq, Eq, Structural)]
pub enum FileKind {
    Add,
    Delete,
}

/// A data file as a Paimon manifest describes it.
#[derive(Debug)]
pub struct DataFileMeta {
    pub file_name: String,
    pub file_size: i64,
    pub row_count: i64,
    /// Set where the file lies outside the table's bucket directories.
    pub external_path: Option<String>,
}

/// One entry of a Paimon manifest.
#[derive(Debug)]
pub struct ManifestEntry {
    pub kind: FileKind,
    pub bucket: i32,
    pub file: DataFileMeta,
}

/// What a [`Snapshot`] holds.
#[verifier::ext_equal]
pub struct SnapshotView {
    pub id: i64,
    pub changelog_manifest_list: Option<Seq<char>>,
}

impl View for Snapshot {
    type V = SnapshotView;

    open spec fn view(&self) -> SnapshotView {
        SnapshotView {
            id: self.id,
            changelog_manifest_list: text_of(self.changelog_manifest_list),
        }
    }
}

/// What a [`DataFileMeta`] holds.
#[verifier::ext_equal]
pub struct DataFileMetaView {
    pub file_name: Seq<char>,
    pub file_size: i64,
    pub row_count: i64,
    pub external_path: Option<Seq<char>>,
}

impl View for DataFileMeta {
    type V = DataFileMetaView;

    open spec fn view(&self) -> DataFileMetaView {
        DataFileMetaView {
            file_name: self.file_name@,
            file_size: self.file_size,
            row_count: self.row_count,
            external_path: text_of(self.external_path),
        }
    }
}

/// What a [`ManifestEntry`] holds.
#[verifier::ext_equal]
pub struct ManifestEntryView {
    pub kind: FileKind,
    pub bucket: i32,
    pub file: DataFileMetaView,
}

impl View for ManifestEntry {
    type V = ManifestEntryView;

    open spec fn view(&self) -> ManifestEntryView {
        ManifestEntryView { kind: self.kind, bucket: self.bucket, file: self.file@ }
    }
}

/// What each entry of a Paimon manifest holds.
pub open spec fn manifest_entry_views(entries: Seq<ManifestEntry>) -> Seq<ManifestEntryView> {
    Seq::new(entries.len(), |i: int| entries[i]@)
}

/// The text in an optional string.
pub open spec fn text_of(o: Option<String>) -> Option<Seq<char>> {
    match o {
        Some(s) => Some(s@),
        None => None,
    }
}

/// The texts in a sequence of strings.
pub open spec fn texts_of(strings: Seq<String>) -> Seq<Seq<char>> {
    Seq::new(strings.len(), |i: int| strings[i]@)
}

impl DataType {
    /// A type that admits NULL.
    pub fn nullable(root: TypeRoot) -> (r: Self)
        ensures
            r.nullable,
            r.root == root,
    {
        DataType { nullable: true, root }
    }

    /// A type that does not admit NULL.
    pub fn required(root: TypeRoot) -> (r: Self)
        ensures
            !r.nullable,
            r.root == root,
    {
        DataType { nullable: false, root }
    }
}

/// A copy of an optional string.
pub(crate) fn copy_text(o: &Option<String>) -> (r: Option<String>)
    ensures
        text_of(r) == text_of(*o),
{
    match o {
        Some(s) => Some(s.clone()),
        None => None,
    }
}

} // verus!
