use paimon_iceberg::document::{metadata_value, schema_value};
use paimon_iceberg::metadata::{
    name_mapping_entry_text, name_mapping_text, IcebergDataField, IcebergMetadata,
    IcebergPartitionField, IcebergPartitionSpec, IcebergSchema, IcebergSnapshotSummary,
    IcebergSortOrder,
};
use paimon_iceberg::string_map::StringMap;
use paimon_iceberg::table::{DataField, DataType, TypeRoot};
use paimon_iceberg::types::{
    element_field_id, fields_are_convertible, map_key_field_id, map_value_field_id,
};
use serde_json::Value;

fn json(text: &str) -> Value {
    serde_json::from_str(text).unwrap()
}

fn column(id: i32, data_type: DataType) -> DataField {
    DataField {
        id,
        name: "c".to_owned(),
        data_type,
        description: None,
    }
}

fn iceberg_type(root: TypeRoot) -> Value {
    IcebergDataField::from_paimon(&column(3, DataType::nullable(root))).type_val
}

#[test]
fn test_iceberg_schema_from_paimon_fields_round_trips_json() {
    let fields = vec![
        IcebergDataField::primitive(1, "id", "long", false),
        IcebergDataField::primitive(2, "name", "string", true),
    ];
    let schema = IcebergSchema::from_fields(0, fields);
    assert_eq!(schema.highest_field_id(), 2);
    let text = serde_json::to_string(&schema_value(&schema)).unwrap();
    let back = json(&text);
    assert_eq!(back, schema_value(&schema));
    assert_eq!(
        text,
        "{\"type\":\"struct\",\"schema-id\":0,\"fields\":[\
         {\"id\":1,\"name\":\"id\",\"required\":true,\"type\":\"long\"},\
         {\"id\":2,\"name\":\"name\",\"required\":false,\"type\":\"string\"}]}"
    );
}

fn sample_metadata() -> IcebergMetadata {
    let base =
        IcebergSchema::from_fields(0, vec![IcebergDataField::primitive(1, "val", "int", true)]);
    let changelog = IcebergSchema::from_fields(
        0,
        vec![
            IcebergDataField::primitive(1, "val", "int", true),
            IcebergDataField::primitive(2, "_value_kind", "int", true),
            IcebergDataField::primitive(3, "_sequence_number", "long", true),
        ],
    );
    IcebergMetadata::new_changelog(
        2,
        "test-uuid".into(),
        "file:///tmp/tbl".into(),
        1,
        &base,
        changelog,
        vec![],
        "file:///tmp/tbl_changelog/metadata/snap-1-abc.avro".into(),
        0,
    )
}

#[test]
fn test_iceberg_metadata_round_trips_json() {
    let meta = sample_metadata();
    let text = meta.to_json().unwrap();
    let back = json(&text);
    assert_eq!(back["table-uuid"], "test-uuid");
    assert_eq!(back["format-version"], 2);
    assert_eq!(back["current-snapshot-id"], 1);
    assert_eq!(back, metadata_value(&meta));
}

#[test]
fn the_document_has_its_members_in_order() {
    let expected = r#"{
  "format-version": 2,
  "table-uuid": "test-uuid",
  "location": "file:///tmp/tbl",
  "last-sequence-number": 1,
  "last-updated-ms": 0,
  "last-column-id": 3,
  "schemas": [
    {
      "type": "struct",
      "schema-id": 0,
      "fields": [
        {
          "id": 1,
          "name": "val",
          "required": false,
          "type": "int"
        },
        {
          "id": 2,
          "name": "_value_kind",
          "required": false,
          "type": "int"
        },
        {
          "id": 3,
          "name": "_sequence_number",
          "required": false,
          "type": "long"
        }
      ]
    }
  ],
  "current-schema-id": 0,
  "partition-specs": [
    {
      "spec-id": 0,
      "fields": []
    }
  ],
  "default-spec-id": 0,
  "last-partition-id": 999,
  "sort-orders": [
    {
      "order-id": 0,
      "fields": []
    }
  ],
  "default-sort-order-id": 0,
  "snapshots": [
    {
      "sequence-number": 1,
      "snapshot-id": 1,
      "timestamp-ms": 0,
      "summary": {
        "operation": "append"
      },
      "manifest-list": "file:///tmp/tbl_changelog/metadata/snap-1-abc.avro",
      "schema-id": 0
    }
  ],
  "current-snapshot-id": 1,
  "properties": {
    "schema.name-mapping.default": "[{\"field-id\":1,\"names\":[\"val\",\"VAL\"]},{\"field-id\":2,\"names\":[\"_value_kind\",\"_VALUE_KIND\"]},{\"field-id\":3,\"names\":[\"_sequence_number\",\"_SEQUENCE_NUMBER\"]}]"
  }
}"#;
    assert_eq!(sample_metadata().to_json().unwrap(), expected);
}

#[test]
fn optional_members_are_left_out_or_printed() {
    let mut meta = sample_metadata();
    meta.properties = StringMap::new();
    meta.last_updated_ms = u64::MAX;
    meta.snapshots[0].parent_snapshot_id = Some(-4);
    meta.snapshots[0].first_row_id = Some(5);
    meta.snapshots[0].added_rows = Some(6);
    let back = json(&meta.to_json().unwrap());
    assert!(back.get("properties").is_none());
    assert_eq!(back["last-updated-ms"], u64::MAX);
    assert_eq!(
        serde_json::to_string(&back["snapshots"][0]).unwrap(),
        "{\"sequence-number\":1,\"snapshot-id\":1,\"parent-snapshot-id\":-4,\"timestamp-ms\":0,\
         \"summary\":{\"operation\":\"append\"},\"manifest-list\":\
         \"file:///tmp/tbl_changelog/metadata/snap-1-abc.avro\",\"schema-id\":0,\
         \"first-row-id\":5,\"added-rows\":6}"
    );
    meta.snapshots[0].first_row_id = None;
    let other = json(&meta.to_json().unwrap());
    assert_ne!(back, other);
}

#[test]
fn partition_specs_are_printed() {
    let base = IcebergSchema::from_fields(4, vec![]);
    let changelog = IcebergSchema::from_fields(4, vec![]);
    let meta = IcebergMetadata::new_changelog(
        3,
        "u".into(),
        "l".into(),
        9,
        &base,
        changelog,
        vec![
            IcebergPartitionField::identity("dt", 7, 1001),
            IcebergPartitionField::identity("hh", 8, 1000),
        ],
        "m".into(),
        12,
    );
    assert_eq!(meta.last_partition_id, 1001);
    assert_eq!(meta.last_column_id, 0);
    assert_eq!(meta.current_schema_id, 4);
    let back = json(&meta.to_json().unwrap());
    assert_eq!(
        back["partition-specs"],
        json(
            r#"[{"spec-id": 0, "fields": [
                {"name": "dt", "transform": "identity", "source-id": 7, "field-id": 1001},
                {"name": "hh", "transform": "identity", "source-id": 8, "field-id": 1000}]}]"#
        )
    );
    assert_eq!(
        back["properties"]["schema.name-mapping.default"],
        Value::String("[]".into())
    );
    assert_eq!(IcebergPartitionSpec::new(vec![]).spec_id, 0);
    assert_eq!(IcebergSortOrder::default().order_id, 0);
    assert_eq!(
        IcebergSnapshotSummary::append().0.get("operation"),
        Some("append")
    );
}

#[test]
fn texts_are_escaped_and_read_back() {
    let mut meta = sample_metadata();
    meta.location = "a\"b\\c\n\u{1}\u{1f389}".to_owned();
    let back = json(&meta.to_json().unwrap());
    assert_eq!(back["location"], "a\"b\\c\n\u{1}\u{1f389}");
    assert_eq!(back, metadata_value(&meta));
}

#[test]
fn names_are_mapped_in_both_cases() {
    let fields = vec![
        IcebergDataField::primitive(1, "ABC", "int", true),
        IcebergDataField::primitive(-2, "stra\u{df}e", "int", true),
    ];
    assert_eq!(
        name_mapping_text(&fields),
        "[{\"field-id\":1,\"names\":[\"ABC\"]},\
         {\"field-id\":-2,\"names\":[\"stra\u{df}e\",\"STRASSE\"]}]"
    );
    assert_eq!(
        name_mapping_entry_text(5, &"a".to_owned(), &"A".to_owned()),
        "{\"field-id\":5,\"names\":[\"a\",\"A\"]}"
    );
    assert_eq!(
        name_mapping_entry_text(5, &"A".to_owned(), &"A".to_owned()),
        "{\"field-id\":5,\"names\":[\"A\"]}"
    );
}

#[test]
fn names_are_mapped_as_json_strings() {
    let name = "a\"b\\c\u{1}\u{1f}\n\t\r\u{8}\u{c}\u{7f}\u{1f389}/x";
    let fields = vec![IcebergDataField::primitive(1, name, "int", true)];
    let mapping = json(&name_mapping_text(&fields));
    assert_eq!(mapping[0]["field-id"], 1);
    assert_eq!(mapping[0]["names"][0], name);
    assert_eq!(mapping[0]["names"][1], name.to_uppercase());
    assert_eq!(
        name_mapping_entry_text(5, &"a\"b".to_owned(), &"A\"B".to_owned()),
        "{\"field-id\":5,\"names\":[\"a\\\"b\",\"A\\\"B\"]}"
    );
}

#[test]
fn primitive_types_are_converted() {
    for (root, name) in [
        (TypeRoot::Boolean, "boolean"),
        (TypeRoot::TinyInt, "int"),
        (TypeRoot::SmallInt, "int"),
        (TypeRoot::Int, "int"),
        (TypeRoot::BigInt, "long"),
        (TypeRoot::Float, "float"),
        (TypeRoot::Double, "double"),
        (TypeRoot::Date, "date"),
        (TypeRoot::Time, "binary"),
        (TypeRoot::Char, "string"),
        (TypeRoot::VarChar, "string"),
        (TypeRoot::Binary, "binary"),
        (TypeRoot::VarBinary, "binary"),
        (TypeRoot::Blob, "binary"),
        (
            TypeRoot::Decimal {
                precision: 10,
                scale: 2,
            },
            "decimal(10, 2)",
        ),
        (TypeRoot::Timestamp { precision: 6 }, "timestamp"),
        (TypeRoot::Timestamp { precision: 7 }, "timestamp_ns"),
        (TypeRoot::LocalZonedTimestamp { precision: 6 }, "timestamptz"),
        (
            TypeRoot::LocalZonedTimestamp { precision: 7 },
            "timestamptz_ns",
        ),
        (
            TypeRoot::MultisetOf(Box::new(DataType::nullable(TypeRoot::Int))),
            "binary",
        ),
        (
            TypeRoot::VectorOf(Box::new(DataType::nullable(TypeRoot::Float))),
            "binary",
        ),
    ] {
        assert_eq!(iceberg_type(root), Value::String(name.to_owned()));
    }
}

#[test]
fn nested_types_are_converted() {
    let array = TypeRoot::ArrayOf(Box::new(DataType::required(TypeRoot::ArrayOf(Box::new(
        DataType::nullable(TypeRoot::Int),
    )))));
    assert_eq!(
        iceberg_type(array),
        json(
            r#"{"type": "list", "element-id": 31, "element-required": true, "element":
                {"type": "list", "element-id": 32, "element-required": false, "element": "int"}}"#
        )
    );
    let map = TypeRoot::MapOf(
        Box::new(DataType::required(TypeRoot::VarChar)),
        Box::new(DataType::required(TypeRoot::BigInt)),
    );
    assert_eq!(
        iceberg_type(map),
        json(
            r#"{"type": "map", "key-id": 31, "key": "string", "value-id": 32,
                "value-required": true, "value": "long"}"#
        )
    );
    let row = TypeRoot::Row(vec![
        DataField {
            id: 8,
            name: "x".to_owned(),
            data_type: DataType::required(TypeRoot::ArrayOf(Box::new(DataType::required(
                TypeRoot::Int,
            )))),
            description: Some("inner".to_owned()),
        },
        column(9, DataType::nullable(TypeRoot::Boolean)),
    ]);
    assert_eq!(
        iceberg_type(row),
        json(
            r#"{"type": "struct", "fields": [
                {"id": 8, "name": "x", "required": true, "type": {"type": "list",
                 "element-id": 81, "element-required": true, "element": "int"}, "doc": "inner"},
                {"id": 9, "name": "c", "required": false, "type": "boolean"}]}"#
        )
    );
}

#[test]
fn nested_ids_are_computed() {
    assert_eq!(element_field_id(3, 1), 31);
    assert_eq!(map_key_field_id(3, 2), 33);
    assert_eq!(map_value_field_id(3, 2), 34);
}

#[test]
fn columns_keep_their_description_and_nullability() {
    let fields = vec![DataField {
        id: 5,
        name: "n".to_owned(),
        data_type: DataType::required(TypeRoot::Int),
        description: Some("d".to_owned()),
    }];
    assert!(fields_are_convertible(&fields));
    let schema = IcebergSchema::from_paimon_fields(6, &fields);
    assert_eq!(schema.schema_id, 6);
    assert_eq!(schema.fields[0].id, 5);
    assert_eq!(schema.fields[0].doc.as_deref(), Some("d"));
    assert!(schema.fields[0].required);
    assert_eq!(IcebergSchema::from_fields(0, vec![]).highest_field_id(), 0);
    let negative = IcebergDataField::primitive(-5, "n", "int", true).with_doc("x");
    assert_eq!(negative.doc.as_deref(), Some("x"));
    assert_eq!(
        IcebergSchema::from_fields(0, vec![negative]).highest_field_id(),
        -5
    );
}

#[test]
fn ids_that_do_not_fit_are_noticed() {
    let list = || {
        DataType::nullable(TypeRoot::ArrayOf(Box::new(DataType::nullable(
            TypeRoot::Int,
        ))))
    };
    assert!(fields_are_convertible(&vec![column(214_748_364, list())]));
    assert!(!fields_are_convertible(&vec![column(214_748_365, list())]));
    assert!(fields_are_convertible(&vec![column(
        i32::MAX,
        DataType::nullable(TypeRoot::Int)
    )]));
}

#[test]
fn maps_keep_their_order() {
    let map = StringMap::new()
        .insert("b", "1".to_owned())
        .insert("a", "2".to_owned())
        .insert("b", "3".to_owned());
    assert_eq!(map.len(), 2);
    assert_eq!(map.get("b"), Some("3"));
    assert_eq!(map.get("a"), Some("2"));
    assert_eq!(map.get("c"), None);
    assert_eq!(
        serde_json::to_string(&map.to_value()).unwrap(),
        "{\"b\":\"3\",\"a\":\"2\"}"
    );
}

#[test]
fn maps_are_equal_in_whatever_order_they_were_filled() {
    let map = |pairs: &[(&str, &str)]| {
        pairs.iter().fold(StringMap::new(), |done, (key, value)| {
            done.insert(key, value.to_string())
        })
    };
    assert_eq!(map(&[("a", "1"), ("b", "2")]), map(&[("b", "2"), ("a", "1")]));
    assert_ne!(map(&[("a", "1"), ("b", "2")]), map(&[("a", "1")]));
    assert_ne!(map(&[("a", "1")]), map(&[("a", "1"), ("b", "2")]));
    assert_ne!(map(&[("a", "1")]), map(&[("a", "2")]));
    assert_eq!(map(&[]), StringMap::new());
    let summary = |pairs| IcebergSnapshotSummary(map(pairs));
    assert_eq!(
        summary(&[("x", "1"), ("operation", "append")]),
        summary(&[("operation", "append"), ("x", "1")])
    );
    let copy = map(&[("a", "1"), ("b", "2")]);
    assert_eq!(copy.clone(), copy);
}

#[test]
fn documents_can_be_read_up_to_a_nesting_limit() {
    for (depth, readable) in [(1, true), (122, true), (123, false)] {
        let mut data_type = DataType::nullable(TypeRoot::Int);
        for _ in 0..depth {
            data_type = DataType::nullable(TypeRoot::ArrayOf(Box::new(data_type)));
        }
        let field = IcebergDataField::from_paimon(&column(1, data_type));
        let mut meta = sample_metadata();
        meta.schemas[0].fields.push(field);
        let text = meta.to_json().unwrap();
        let back: Result<Value, serde_json::Error> = serde_json::from_str(&text);
        assert_eq!(back.is_ok(), readable, "{depth}");
        if let Ok(back) = back {
            assert_eq!(back, metadata_value(&meta));
        }
    }
}

#[test]
fn documents_refer_to_what_they_have() {
    let back = json(&sample_metadata().to_json().unwrap());
    assert_eq!(back["schemas"][0]["schema-id"], back["current-schema-id"]);
    assert_eq!(back["snapshots"][0]["snapshot-id"], back["current-snapshot-id"]);
    assert_eq!(back["snapshots"][0]["schema-id"], back["current-schema-id"]);
    assert_eq!(back["partition-specs"][0]["spec-id"], back["default-spec-id"]);
    assert_eq!(back["sort-orders"][0]["order-id"], back["default-sort-order-id"]);
}
