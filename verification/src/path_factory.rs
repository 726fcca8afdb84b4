//! Names of the files of the Iceberg companion table.
use vstd::prelude::*;

use crate::ids::{is_random_uuid, random_uuid};
use crate::text::{decimal_denotes, i64_text, int_text, is_digit, numerals_are_distinct, u64_text};

verus! {

/// `<dir>/v{snapshot_id}.metadata.json`
pub open spec fn metadata_file(dir: Seq<char>, snapshot_id: i64) -> Seq<char> {
    dir + "/v"@ + int_text(snapshot_id as int) + ".metadata.json"@
}

/// `<dir>/version-hint.text`
pub open spec fn version_hint_file(dir: Seq<char>) -> Seq<char> {
    dir + "/version-hint.text"@
}

/// `<dir>/snap-{count}-{uuid}.avro`
pub open spec fn manifest_list_file(dir: Seq<char>, uuid: Seq<char>, count: int) -> Seq<char> {
    dir + "/snap-"@ + int_text(count) + "-"@ + uuid + ".avro"@
}

/// `<dir>/{uuid}-m{count}.avro`
pub open spec fn manifest_file(dir: Seq<char>, uuid: Seq<char>, count: int) -> Seq<char> {
    dir + "/"@ + uuid + "-m"@ + int_text(count) + ".avro"@
}

/// Generates the paths of metadata files.
///
/// File names:
/// - metadata document: `v{snapshotId}.metadata.json`
/// - manifest list: `snap-{counter}-{uuid}.avro`
/// - manifest: `{uuid}-m{counter}.avro`
///
/// The UUID and the counters belong to the factory: each commit has a factory
/// of its own.
#[derive(Debug)]
pub struct IcebergPathFactory {
    metadata_dir: String,
    uuid: String,
    manifest_list_counter: u64,
    manifest_counter: u64,
}

/// What an [`IcebergPathFactory`] holds: its directory, its UUID, and how many
/// paths of each kind it has given out.
#[verifier::ext_equal]
pub struct IcebergPathFactoryView {
    pub metadata_dir: Seq<char>,
    pub uuid: Seq<char>,
    pub manifest_lists: int,
    pub manifests: int,
}

impl View for IcebergPathFactory {
    type V = IcebergPathFactoryView;

    closed spec fn view(&self) -> IcebergPathFactoryView {
        IcebergPathFactoryView {
            metadata_dir: self.metadata_dir@,
            uuid: self.uuid@,
            manifest_lists: self.manifest_list_counter as int,
            manifests: self.manifest_counter as int,
        }
    }
}

impl IcebergPathFactory {
    #[verifier::type_invariant]
    spec fn well_formed(self) -> bool {
        is_random_uuid(self.uuid@)
    }

    /// Creates a factory for `metadata_dir`, the `metadata` directory of the
    /// companion table, with a fresh UUID.
    pub fn new(metadata_dir: &str) -> (r: Self)
        ensures
            is_random_uuid(r@.uuid),
            r@.metadata_dir == metadata_dir@,
            r@.manifest_lists == 0,
            r@.manifests == 0,
    {
        IcebergPathFactory {
            metadata_dir: metadata_dir.to_owned(),
            uuid: random_uuid(),
            manifest_list_counter: 0,
            manifest_counter: 0,
        }
    }

    /// The `metadata` directory, without a trailing slash.
    pub fn metadata_dir(&self) -> (r: &str)
        ensures
            r@ == self@.metadata_dir,
    {
        self.metadata_dir.as_str()
    }

    /// The path of the metadata document of a snapshot.
    pub fn metadata_path(&self, snapshot_id: i64) -> (r: String)
        ensures
            r@ == metadata_file(self@.metadata_dir, snapshot_id),
    {
        let mut path = self.metadata_dir.clone();
        path.append("/v");
        path.append(i64_text(snapshot_id).as_str());
        path.append(".metadata.json");
        path
    }

    /// The path of the version hint.
    pub fn version_hint_path(&self) -> (r: String)
        ensures
            r@ == version_hint_file(self@.metadata_dir),
    {
        let mut path = self.metadata_dir.clone();
        path.append("/version-hint.text");
        path
    }

    /// Whether the factory can give out another path of each kind.
    pub fn has_paths_left(&self) -> (r: bool)
        ensures
            r == (self@.manifest_lists < u64::MAX && self@.manifests < u64::MAX),
    {
        self.manifest_list_counter < u64::MAX && self.manifest_counter < u64::MAX
    }

    /// The next path for a manifest list.
    pub fn next_manifest_list_path(&mut self) -> (r: String)
        requires
            old(self)@.manifest_lists < u64::MAX,
        ensures
            r@ == manifest_list_file(
                old(self)@.metadata_dir,
                old(self)@.uuid,
                old(self)@.manifest_lists + 1,
            ),
            final(self)@ == (IcebergPathFactoryView {
                manifest_lists: old(self)@.manifest_lists + 1,
                ..old(self)@
            }),
    {
        proof {
            use_type_invariant(&*self);
        }
        let count: u64 = self.manifest_list_counter + 1;
        self.manifest_list_counter = count;
        let mut path = self.metadata_dir.clone();
        path.append("/snap-");
        path.append(u64_text(count).as_str());
        path.append("-");
        path.append(self.uuid.as_str());
        path.append(".avro");
        path
    }

    /// The next path for a manifest.
    pub fn next_manifest_path(&mut self) -> (r: String)
        requires
            old(self)@.manifests < u64::MAX,
        ensures
            r@ == manifest_file(
                old(self)@.metadata_dir,
                old(self)@.uuid,
                old(self)@.manifests + 1,
            ),
            final(self)@ == (IcebergPathFactoryView {
                manifests: old(self)@.manifests + 1,
                ..old(self)@
            }),
    {
        proof {
            use_type_invariant(&*self);
        }
        let count: u64 = self.manifest_counter + 1;
        self.manifest_counter = count;
        let mut path = self.metadata_dir.clone();
        path.append("/");
        path.append(self.uuid.as_str());
        path.append("-m");
        path.append(u64_text(count).as_str());
        path.append(".avro");
        path
    }
}

/// Two manifest lists of one factory have different paths.
pub proof fn manifest_list_files_are_distinct(dir: Seq<char>, uuid: Seq<char>, m: int, n: int)
    requires
        m != n,
    ensures
        manifest_list_file(dir, uuid, m) != manifest_list_file(dir, uuid, n),
{
    let a = manifest_list_file(dir, uuid, m);
    let b = manifest_list_file(dir, uuid, n);
    if a == b {
        assert(a.len() == b.len());
        let from = (dir + "/snap-"@).len() as int;
        assert(int_text(m).len() == int_text(n).len());
        assert(a.subrange(from, from + int_text(m).len()) =~= int_text(m));
        assert(b.subrange(from, from + int_text(n).len()) =~= int_text(n));
        numerals_are_distinct(m, n);
    }
}

/// Two manifests of one factory have different paths.
pub proof fn manifest_files_are_distinct(dir: Seq<char>, uuid: Seq<char>, m: int, n: int)
    requires
        m != n,
    ensures
        manifest_file(dir, uuid, m) != manifest_file(dir, uuid, n),
{
    let a = manifest_file(dir, uuid, m);
    let b = manifest_file(dir, uuid, n);
    if a == b {
        assert(a.len() == b.len());
        let from = (dir + "/"@ + uuid + "-m"@).len() as int;
        assert(int_text(m).len() == int_text(n).len());
        assert(a.subrange(from, from + int_text(m).len()) =~= int_text(m));
        assert(b.subrange(from, from + int_text(n).len()) =~= int_text(n));
        numerals_are_distinct(m, n);
    }
}

/// Two snapshots have their documents at different paths.
pub proof fn metadata_files_are_distinct(dir: Seq<char>, m: i64, n: i64)
    requires
        m != n,
    ensures
        metadata_file(dir, m) != metadata_file(dir, n),
{
    let a = metadata_file(dir, m);
    let b = metadata_file(dir, n);
    if a == b {
        assert(a.len() == b.len());
        let from = (dir + "/v"@).len() as int;
        assert(int_text(m as int).len() == int_text(n as int).len());
        assert(a.subrange(from, from + int_text(m as int).len()) =~= int_text(m as int));
        assert(b.subrange(from, from + int_text(n as int).len()) =~= int_text(n as int));
        numerals_are_distinct(m as int, n as int);
    }
}

/// Files of different kinds in one metadata directory never share a path.
pub proof fn kinds_of_files_are_distinct(
    dir: Seq<char>,
    uuid: Seq<char>,
    snapshot_id: i64,
    lists: int,
    manifests: int,
)
    requires
        is_random_uuid(uuid),
    ensures
        metadata_file(dir, snapshot_id) != version_hint_file(dir),
        metadata_file(dir, snapshot_id) != manifest_list_file(dir, uuid, lists),
        metadata_file(dir, snapshot_id) != manifest_file(dir, uuid, manifests),
        version_hint_file(dir) != manifest_list_file(dir, uuid, lists),
        version_hint_file(dir) != manifest_file(dir, uuid, manifests),
        manifest_list_file(dir, uuid, lists) != manifest_file(dir, uuid, manifests),
{
    reveal_strlit("/v");
    reveal_strlit("/version-hint.text");
    reveal_strlit("/snap-");
    reveal_strlit("/");
    let at = dir.len() as int;
    let digits = int_text(snapshot_id as int);
    decimal_denotes(if snapshot_id < 0 { (-snapshot_id) as nat } else { snapshot_id as nat });
    assert(digits[0] == '-' || is_digit(digits[0]));
    let metadata = metadata_file(dir, snapshot_id);
    assert(metadata[at + 1] == 'v');
    assert(metadata[at + 2] == digits[0]);
    assert(version_hint_file(dir)[at + 1] == 'v');
    assert(version_hint_file(dir)[at + 2] == 'e');
    assert(manifest_list_file(dir, uuid, lists)[at + 1] == 's');
    assert(manifest_file(dir, uuid, manifests)[at + 1] == uuid[0]);
}

} // verus!
