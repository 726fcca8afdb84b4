use paimon_iceberg::path_factory::IcebergPathFactory;

#[test]
fn test_path_factory_naming() {
    let mut f = IcebergPathFactory::new("memory:/db/tbl_changelog/metadata");
    assert_eq!(
        f.metadata_path(7),
        "memory:/db/tbl_changelog/metadata/v7.metadata.json"
    );
    assert_eq!(
        f.version_hint_path(),
        "memory:/db/tbl_changelog/metadata/version-hint.text"
    );
    // The counter for manifest lists starts at 1.
    let ml = f.next_manifest_list_path();
    assert!(ml.contains("/snap-1-"), "expected snap-1-: {ml}");
    assert!(ml.ends_with(".avro"));
    // The counter for manifests starts at 1.
    let m = f.next_manifest_path();
    assert!(m.contains("-m1.avro"), "expected -m1.avro: {m}");
}

#[test]
fn paths_of_one_factory_share_its_uuid_and_are_numbered() {
    let mut f = IcebergPathFactory::new("dir");
    assert_eq!(f.metadata_dir(), "dir");
    assert!(f.has_paths_left());
    let first = f.next_manifest_list_path();
    let second = f.next_manifest_list_path();
    let uuid = first
        .strip_prefix("dir/snap-1-")
        .and_then(|rest| rest.strip_suffix(".avro"))
        .unwrap()
        .to_owned();
    assert_eq!(second, format!("dir/snap-2-{uuid}.avro"));
    assert_eq!(f.next_manifest_path(), format!("dir/{uuid}-m1.avro"));
    assert_eq!(f.next_manifest_path(), format!("dir/{uuid}-m2.avro"));
    assert_eq!(f.metadata_path(-3), "dir/v-3.metadata.json");
}

#[test]
fn factories_have_random_uuids() {
    let mut uuids: Vec<String> = Vec::new();
    for _ in 0..8 {
        let path = IcebergPathFactory::new("d").next_manifest_path();
        let uuid = path[2..38].to_owned();
        assert_eq!(uuid.len(), 36);
        assert_eq!(uuid.as_bytes()[14], b'4');
        assert!(matches!(uuid.as_bytes()[19], b'8' | b'9' | b'a' | b'b'));
        for (i, c) in uuid.chars().enumerate() {
            if matches!(i, 8 | 13 | 18 | 23) {
                assert_eq!(c, '-');
            } else {
                assert!(c.is_ascii_digit() || matches!(c, 'a'..='f'));
            }
        }
        assert!(!uuids.contains(&uuid));
        uuids.push(uuid);
    }
}
