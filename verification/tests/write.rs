use std::collections::{BTreeMap, HashMap};

use apache_avro::types::Value as Avro;
use paimon_iceberg::changelog_commit_callback::IcebergChangelogCommitCallback;
use paimon_iceberg::commit_callback::CommitCallback;
use paimon_iceberg::table::{
    DataField, DataFileMeta, DataType, FileKind, ManifestEntry, Snapshot, TableSchema, TypeRoot,
};
use paimon_iceberg::write::{parse_version_hint, IcebergChangelogWriter, Reply, Request, Step};
use serde_json::Value;

/// A table and its storage, in memory.
#[derive(Default)]
struct Surroundings {
    /// The manifest list of each snapshot's changelog.
    snapshots: BTreeMap<i64, Option<String>>,
    lists: HashMap<String, Vec<String>>,
    /// For each file: whether it is added, its name, its rows, its external
    /// path.
    manifests: HashMap<String, Vec<(bool, String, i64, Option<String>)>>,
    files: HashMap<String, Vec<u8>>,
    directories: Vec<String>,
    /// The paths that were written, in order.
    log: Vec<String>,
    /// Paths whose writes and reads fail.
    broken: Vec<String>,
    /// The time; without one the clock is broken.
    clock: Option<u64>,
}

impl Surroundings {
    fn answer(&mut self, request: Request) -> Reply {
        match request {
            Request::CheckExists { path } => {
                if self.broken.contains(&path) {
                    return Reply::Failed;
                }
                Reply::Exists(self.files.contains_key(&path))
            }
            Request::FindEarliestSnapshot => {
                Reply::EarliestSnapshot(self.snapshots.keys().next().copied())
            }
            Request::LoadSnapshot { id } => match self.snapshots.get(&id) {
                Some(list) => Reply::LoadedSnapshot(Snapshot {
                    id,
                    changelog_manifest_list: list.clone(),
                }),
                None => Reply::Failed,
            },
            Request::ReadManifestList { path } => match self.lists.get(&path) {
                Some(names) => Reply::Manifests(names.clone()),
                None => Reply::Failed,
            },
            Request::ReadManifest { path } => match self.manifests.get(&path) {
                Some(files) => Reply::Entries(
                    files
                        .iter()
                        .map(|(added, name, rows, external_path)| ManifestEntry {
                            kind: if *added { FileKind::Add } else { FileKind::Delete },
                            bucket: 0,
                            file: DataFileMeta {
                                file_name: name.clone(),
                                file_size: 1024,
                                row_count: *rows,
                                external_path: external_path.clone(),
                            },
                        })
                        .collect(),
                ),
                None => Reply::Failed,
            },
            Request::WriteFile { path, bytes } => {
                if self.broken.contains(&path) {
                    return Reply::Failed;
                }
                self.log.push(path.clone());
                self.files.insert(path, bytes);
                Reply::Written
            }
            Request::ReadFile { path } => {
                if self.broken.contains(&path) {
                    return Reply::Failed;
                }
                Reply::File(self.files.get(&path).cloned())
            }
            Request::ReadTableUuid { document } => Reply::TableUuid(
                serde_json::from_str::<Value>(&document)
                    .ok()
                    .and_then(|document| document["table-uuid"].as_str().map(str::to_owned)),
            ),
            Request::ReadClock => match self.clock {
                Some(ms) => Reply::Clock(ms),
                None => Reply::Failed,
            },
        }
    }

    /// Runs a writer to its end.
    fn run(
        &mut self,
        writer: &mut IcebergChangelogWriter,
        snapshot_id: i64,
        schema: &TableSchema,
    ) -> Step {
        let (mut run, mut step) = writer.write(snapshot_id, schema);
        loop {
            match step {
                Step::Ask(request) => {
                    let reply = self.answer(request);
                    (run, step) = writer.resume(run, reply);
                }
                end => return end,
            }
        }
    }

    /// Carries out what a callback decides on after a commit.
    fn commit(&mut self, callback: &IcebergChangelogCommitCallback, snapshot: &Snapshot) -> bool {
        let Some(mut work) = callback.call(snapshot) else {
            return false;
        };
        self.directories.push(work.directory);
        let step = self.run(&mut work.writer, work.snapshot_id, callback.table_schema());
        matches!(step, Step::Done(_))
    }

    fn add_snapshot(&mut self, table: &str, id: i64, files: &[(bool, &str, i64)]) {
        let list = format!("manifest-list-changelog-{id}");
        let manifest = format!("manifest-changelog-{id}");
        self.snapshots.insert(id, Some(list.clone()));
        self.lists
            .insert(format!("{table}/manifest/{list}"), vec![manifest.clone()]);
        self.manifests.insert(
            format!("{table}/manifest/{manifest}"),
            files
                .iter()
                .map(|(added, name, rows)| {
                    let path = format!("memory:/tbl/bucket-0/{name}");
                    (*added, name.to_string(), *rows, Some(path))
                })
                .collect(),
        );
    }

    fn document(&self, path: &str) -> Value {
        serde_json::from_slice(&self.files[path]).unwrap()
    }

    fn rows(&self, path: &str) -> Vec<Avro> {
        apache_avro::Reader::new(&self.files[path][..])
            .unwrap()
            .map(|row| row.unwrap())
            .collect()
    }
}

fn make_table_schema() -> TableSchema {
    let column = |id: i32, name: &str| DataField {
        id,
        name: name.to_owned(),
        data_type: DataType::nullable(TypeRoot::Int),
        description: None,
    };
    TableSchema {
        id: 0,
        fields: vec![column(0, "id"), column(1, "val")],
        partition_keys: vec![],
    }
}

fn field<'a>(record: &'a Avro, name: &str) -> &'a Avro {
    match record {
        Avro::Record(fields) => &fields.iter().find(|(n, _)| n == name).unwrap().1,
        _ => panic!("not a record"),
    }
}

fn file_path(row: &Avro) -> String {
    match field(field(row, "data_file"), "file_path") {
        Avro::String(path) => path.clone(),
        _ => panic!("not a text"),
    }
}

#[test]
fn test_iceberg_changelog_writer_end_to_end() {
    let table_path = "memory:/warehouse/db/test_table";
    let changelog_meta_path = "memory:/warehouse/db/test_table_changelog/metadata";
    let mut around = Surroundings::default();
    around.add_snapshot(table_path, 1, &[(true, "changelog-0.parquet", 10)]);

    let table_schema = make_table_schema();
    let mut writer = IcebergChangelogWriter::new(table_path, changelog_meta_path, 2);
    let written = around.run(&mut writer, 1, &table_schema);
    assert!(
        matches!(written, Step::Done(true)),
        "expected metadata to be written on first call"
    );

    let meta_path = format!("{changelog_meta_path}/v1.metadata.json");
    assert!(
        around.files.contains_key(&meta_path),
        "v1.metadata.json should exist"
    );
    let metadata = around.document(&meta_path);
    assert_eq!(metadata["format-version"], 2);
    assert_eq!(metadata["current-snapshot-id"], 1);
    assert!(!metadata["table-uuid"].as_str().unwrap().is_empty());
    let field_names: Vec<&str> = metadata["schemas"][0]["fields"]
        .as_array()
        .unwrap()
        .iter()
        .map(|f| f["name"].as_str().unwrap())
        .collect();
    assert!(
        field_names.contains(&"_value_kind"),
        "_value_kind not in changelog schema: {field_names:?}"
    );
    assert!(
        field_names.contains(&"_sequence_number"),
        "_sequence_number not in changelog schema: {field_names:?}"
    );

    let hint_path = format!("{changelog_meta_path}/version-hint.text");
    assert!(
        around.files.contains_key(&hint_path),
        "version-hint.text should exist"
    );
    let hint = String::from_utf8(around.files[&hint_path].clone())
        .unwrap()
        .trim()
        .to_string();
    assert_eq!(hint, "1", "version-hint.text should contain snapshot id 1");

    let written2 = around.run(&mut writer, 1, &table_schema);
    assert!(
        matches!(written2, Step::Done(false)),
        "second write for same snapshot should be skipped (idempotent)"
    );
    assert_eq!(around.log.len(), 4);
}

#[test]
fn test_call_writes_companion_metadata_when_changelog_present() {
    let table_path = "memory:/warehouse/db/cb_test_table";
    let mut around = Surroundings::default();
    around.add_snapshot(table_path, 1, &[(true, "changelog-1.parquet", 10)]);
    let snapshot = Snapshot {
        id: 1,
        changelog_manifest_list: around.snapshots[&1].clone(),
    };

    let callback = IcebergChangelogCommitCallback::new(table_path, make_table_schema());
    assert!(around.commit(&callback, &snapshot));

    let meta_path = format!("{table_path}_changelog/metadata/v1.metadata.json");
    assert!(
        around.files.contains_key(&meta_path),
        "expected companion metadata.json at {meta_path}"
    );
    assert_eq!(around.document(&meta_path)["format-version"], 2);
    let hint_path = format!("{table_path}_changelog/metadata/version-hint.text");
    assert!(around.files.contains_key(&hint_path));
    assert_eq!(
        around.directories,
        vec![format!("{table_path}_changelog/metadata/")]
    );
}

#[test]
fn test_call_is_noop_without_changelog_manifest_list() {
    let table_path = "memory:/warehouse/db/cb_test_no_changelog";
    let mut around = Surroundings::default();
    let snapshot = Snapshot {
        id: 1,
        changelog_manifest_list: None,
    };
    let callback = IcebergChangelogCommitCallback::new(table_path, make_table_schema());
    assert!(!around.commit(&callback, &snapshot));
    assert!(
        around.directories.is_empty() && around.files.is_empty(),
        "callback must not create the companion directory when there's no changelog"
    );
}

#[test]
fn test_call_is_idempotent_across_repeated_invocations() {
    let table_path = "memory:/warehouse/db/cb_test_idempotent";
    let mut around = Surroundings::default();
    around.add_snapshot(table_path, 1, &[(true, "changelog-1.parquet", 10)]);
    let snapshot = Snapshot {
        id: 1,
        changelog_manifest_list: around.snapshots[&1].clone(),
    };
    let callback = IcebergChangelogCommitCallback::new(table_path, make_table_schema());
    assert!(around.commit(&callback, &snapshot));
    let files = around.files.clone();
    assert!(around.commit(&callback, &snapshot));
    assert_eq!(around.files, files);
}

#[test]
fn callbacks_have_a_default_format_version_and_nothing_to_retry() {
    assert_eq!(IcebergChangelogCommitCallback::DEFAULT_FORMAT_VERSION, 2);
    let callback =
        IcebergChangelogCommitCallback::with_format_version("t", make_table_schema(), 3);
    assert!(callback.retry(7).is_none());
    let mut around = Surroundings::default();
    around.add_snapshot("t", 1, &[]);
    let snapshot = Snapshot {
        id: 1,
        changelog_manifest_list: Some("x".to_owned()),
    };
    assert!(around.commit(&callback, &snapshot));
    let document = around.document("t_changelog/metadata/v1.metadata.json");
    assert_eq!(document["format-version"], 3);
    assert_eq!(document["location"], "t");
}

#[test]
fn the_metadata_directory_is_derived_from_the_table_name() {
    let mut around = Surroundings::default();
    around.add_snapshot("t", 1, &[]);
    let mut writer = IcebergChangelogWriter::from_table_location("t", "db/.iceberg", "orders", 2);
    assert!(matches!(
        around.run(&mut writer, 1, &make_table_schema()),
        Step::Done(true)
    ));
    assert!(around
        .files
        .contains_key("db/.iceberg/orders_changelog/metadata/v1.metadata.json"));
}

#[test]
fn all_retained_snapshots_are_collected() {
    let mut around = Surroundings {
        clock: Some(1234),
        ..Surroundings::default()
    };
    around.add_snapshot("t", 3, &[(true, "a", 1), (false, "b", 2), (true, "c", 4)]);
    around.snapshots.insert(4, None);
    // Snapshot 5 has expired.
    around.add_snapshot("t", 6, &[(true, "d", 8)]);
    around.add_snapshot("t", 7, &[(true, "e", 16)]);
    let schema = make_table_schema();
    let mut writer = IcebergChangelogWriter::new("t", "m", 2);
    assert!(matches!(around.run(&mut writer, 6, &schema), Step::Done(true)));

    // The files are written in the order in which they refer to each other.
    assert_eq!(around.log.len(), 4);
    assert!(around.log[0].ends_with("-m1.avro"));
    assert!(around.log[1].starts_with("m/snap-1-"));
    assert_eq!(around.log[2], "m/v6.metadata.json");
    assert_eq!(around.log[3], "m/version-hint.text");

    let rows = around.rows(&around.log[0]);
    let paths: Vec<String> = rows.iter().map(file_path).collect();
    assert_eq!(
        paths,
        vec![
            "memory:/tbl/bucket-0/a",
            "memory:/tbl/bucket-0/c",
            "memory:/tbl/bucket-0/d"
        ]
    );
    let ids: Vec<&Avro> = rows.iter().map(|row| field(row, "snapshot_id")).collect();
    let id = |n: i64| Avro::Union(1, Box::new(Avro::Long(n)));
    assert_eq!(ids, vec![&id(3), &id(3), &id(6)]);

    let list = around.rows(&around.log[1]);
    assert_eq!(list.len(), 1);
    assert_eq!(
        *field(&list[0], "manifest_path"),
        Avro::String(around.log[0].clone())
    );
    assert_eq!(
        *field(&list[0], "manifest_length"),
        Avro::Long(around.files[&around.log[0]].len() as i64)
    );
    assert_eq!(*field(&list[0], "added_files_count"), Avro::Int(3));
    assert_eq!(*field(&list[0], "added_rows_count"), Avro::Long(13));
    assert_eq!(*field(&list[0], "sequence_number"), Avro::Long(6));

    let document = around.document("m/v6.metadata.json");
    assert_eq!(
        document["snapshots"][0]["manifest-list"],
        around.log[1].as_str()
    );
    assert_eq!(document["last-updated-ms"], 1234);
    assert_eq!(document["last-column-id"], 3);
}

#[test]
fn a_changelog_without_files_has_an_empty_list() {
    let mut around = Surroundings::default();
    around.add_snapshot("t", 9, &[(false, "b", 2)]);
    let schema = make_table_schema();
    let mut writer = IcebergChangelogWriter::new("t", "m", 2);
    // No retained snapshot is as old as this one.
    assert!(matches!(around.run(&mut writer, 2, &schema), Step::Done(true)));
    assert!(matches!(around.run(&mut writer, 9, &schema), Step::Done(true)));
    assert_eq!(around.log.len(), 6);
    assert!(around.log[0].starts_with("m/snap-1-"));
    assert!(around.log[3].starts_with("m/snap-2-"));
    assert!(around.rows(&around.log[0]).is_empty());
    assert!(around.rows(&around.log[3]).is_empty());
    // A clock that fails stands at 0.
    assert_eq!(around.document("m/v9.metadata.json")["last-updated-ms"], 0);
}

#[test]
fn the_table_uuid_is_kept_from_write_to_write() {
    let mut around = Surroundings::default();
    around.add_snapshot("t", 1, &[(true, "a", 1)]);
    around.add_snapshot("t", 2, &[(true, "b", 1)]);
    around.add_snapshot("t", 3, &[(true, "c", 1)]);
    let schema = make_table_schema();
    let uuid = |around: &Surroundings, id: i64| {
        around.document(&format!("m/v{id}.metadata.json"))["table-uuid"]
            .as_str()
            .unwrap()
            .to_owned()
    };
    let mut first = None;
    for id in [1, 2] {
        // A writer of its own for each commit.
        let mut writer = IcebergChangelogWriter::new("t", "m", 2);
        assert!(matches!(around.run(&mut writer, id, &schema), Step::Done(true)));
        // The first document stays as it was written.
        let document = around.files["m/v1.metadata.json"].clone();
        assert_eq!(*first.get_or_insert(document.clone()), document);
        // A snapshot is written once.
        assert!(matches!(around.run(&mut writer, id, &schema), Step::Done(false)));
    }
    assert_eq!(uuid(&around, 1).len(), 36);
    assert_eq!(uuid(&around, 1), uuid(&around, 2));
    // Without a hint there is no former table UUID.
    around.files.remove("m/version-hint.text");
    let mut writer = IcebergChangelogWriter::new("t", "m", 2);
    assert!(matches!(around.run(&mut writer, 3, &schema), Step::Done(true)));
    assert_ne!(uuid(&around, 2), uuid(&around, 3));
    assert_eq!(uuid(&around, 3).len(), 36);
}

#[test]
fn unusable_hints_and_documents_give_a_fresh_table_uuid() {
    for (hint, document) in [
        (Some(vec![0xff]), None),
        (Some(b"one".to_vec()), None),
        (Some(b" 7\n".to_vec()), None),
        (Some(b" 7\n".to_vec()), Some(b"{}".to_vec())),
        (Some(b" 7\n".to_vec()), Some(b"{".to_vec())),
        (
            Some(b" 7\n".to_vec()),
            Some(b"{\"table-uuid\": \"former\"}\xff".to_vec()),
        ),
        (None, None),
    ] {
        let mut around = Surroundings::default();
        around.add_snapshot("t", 1, &[]);
        if let Some(hint) = hint {
            around.files.insert("m/version-hint.text".to_owned(), hint);
        }
        if let Some(document) = document {
            around.files.insert("m/v7.metadata.json".to_owned(), document);
        }
        let mut writer = IcebergChangelogWriter::new("t", "m", 2);
        assert!(matches!(
            around.run(&mut writer, 1, &make_table_schema()),
            Step::Done(true)
        ));
        let uuid = around.document("m/v1.metadata.json")["table-uuid"]
            .as_str()
            .unwrap()
            .to_owned();
        assert_eq!(uuid.len(), 36);
    }
    let mut around = Surroundings::default();
    around.add_snapshot("t", 1, &[]);
    around
        .files
        .insert("m/version-hint.text".to_owned(), b" 7\n".to_vec());
    around.files.insert(
        "m/v7.metadata.json".to_owned(),
        b"{\"table-uuid\": \"former\"}".to_vec(),
    );
    let mut writer = IcebergChangelogWriter::new("t", "m", 2);
    around.run(&mut writer, 1, &make_table_schema());
    assert_eq!(around.document("m/v1.metadata.json")["table-uuid"], "former");
}

#[test]
fn hints_are_read() {
    assert_eq!(parse_version_hint(&b"12".to_vec()), Some(12));
    assert_eq!(parse_version_hint(&b"\t-3 \n".to_vec()), Some(-3));
    assert_eq!(parse_version_hint(&b"1 2".to_vec()), None);
    assert_eq!(parse_version_hint(&vec![]), None);
    assert_eq!(parse_version_hint(&vec![0xc3]), None);
}

#[test]
fn a_table_without_snapshots_is_skipped() {
    let mut around = Surroundings::default();
    let mut writer = IcebergChangelogWriter::new("t", "m", 2);
    assert!(matches!(
        around.run(&mut writer, 1, &make_table_schema()),
        Step::Done(false)
    ));
    assert!(around.log.is_empty());
}

#[test]
fn failures_end_the_run() {
    // The check of the target, the manifest list, a manifest and each write.
    let mut around = Surroundings::default();
    around.add_snapshot("t", 1, &[(true, "a", 1)]);
    around.broken.push("m/v1.metadata.json".to_owned());
    let schema = make_table_schema();
    let mut writer = IcebergChangelogWriter::new("t", "m", 2);
    assert!(matches!(around.run(&mut writer, 1, &schema), Step::Failed));
    assert!(around.log.is_empty());

    let mut around = Surroundings::default();
    around.add_snapshot("t", 1, &[(true, "a", 1)]);
    around.lists.clear();
    assert!(matches!(around.run(&mut writer, 1, &schema), Step::Failed));
    assert!(around.log.is_empty());

    let mut around = Surroundings::default();
    around.add_snapshot("t", 1, &[(true, "a", 1)]);
    around.manifests.clear();
    assert!(matches!(around.run(&mut writer, 1, &schema), Step::Failed));
    assert!(around.log.is_empty());

    let mut around = Surroundings::default();
    around.add_snapshot("t", 1, &[(true, "a", 1)]);
    around.broken.push("m/version-hint.text".to_owned());
    assert!(matches!(around.run(&mut writer, 1, &schema), Step::Failed));
    assert_eq!(around.log.len(), 3);
    assert!(!around.files.contains_key("m/version-hint.text"));

    // A reply that answers another request counts as a failure.
    let (run, _) = writer.write(1, &schema);
    let (run, step) = writer.resume(run, Reply::Written);
    assert!(matches!(step, Step::Failed));
    // A run that is over stays over.
    let (_, step) = writer.resume(run, Reply::Exists(false));
    assert!(matches!(step, Step::Failed));
}

#[test]
fn numbers_that_do_not_fit_end_the_run() {
    let mut around = Surroundings::default();
    around.add_snapshot("t", 1, &[(true, "a", i64::MAX), (true, "b", 1)]);
    let schema = make_table_schema();
    let mut writer = IcebergChangelogWriter::new("t", "m", 2);
    assert!(matches!(around.run(&mut writer, 1, &schema), Step::Overflow));
    let mut schema = make_table_schema();
    schema.fields[0].id = i32::MAX;
    assert!(matches!(around.run(&mut writer, 1, &schema), Step::Overflow));
    assert!(around.log.is_empty());
    // Where the document exists, the schema does not matter.
    around
        .files
        .insert("m/v1.metadata.json".to_owned(), vec![]);
    assert!(matches!(around.run(&mut writer, 1, &schema), Step::Done(false)));
}

#[test]
fn runs_reach_the_last_snapshot_id() {
    let mut around = Surroundings::default();
    around.add_snapshot("t", i64::MAX, &[(true, "a", 1)]);
    let mut writer = IcebergChangelogWriter::new("t", "m", 2);
    assert!(matches!(
        around.run(&mut writer, i64::MAX, &make_table_schema()),
        Step::Done(true)
    ));
    assert_eq!(around.rows(&around.log[0]).len(), 1);
    assert_eq!(
        around.files["m/version-hint.text"],
        b"9223372036854775807".to_vec()
    );
}
