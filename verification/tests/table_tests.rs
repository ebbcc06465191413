use ex_iceberg::props::Properties;
use ex_iceberg::table::{
    field_records, inspection_of, metadata_from, metadata_of, table_inspect,
    table_invalidate_cache, table_metadata, table_metadata_ref, SmartTableResource, TableAction,
    TableRequest,
};
use ex_iceberg::types::{FieldSummary, SnapshotInfo, Status, TableInfo};

fn handle() -> SmartTableResource {
    SmartTableResource::new(
        "http://localhost:8181".to_string(),
        Some("wh".to_string()),
        Properties::new(),
        "db.schema".to_string(),
        "events".to_string(),
    )
}

fn info(snapshot: Option<SnapshotInfo>) -> TableInfo {
    let mut properties = Properties::new();
    properties.insert("owner".to_string(), "me \"x\"".to_string());
    TableInfo {
        identifier: "TableIdent { namespace: NamespaceIdent([\"db\"]), name: \"events\" }".to_string(),
        table_uuid: "9c12d441-03fe-4693-9a96-a0705ddf69c1".to_string(),
        format_version: 2,
        location: "s3://bucket/db/events".to_string(),
        schema_id: 3,
        fields: vec![
            FieldSummary { id: 1, name: "id".to_string(), required: true, type_description: "Primitive(Long)".to_string() },
            FieldSummary { id: 2, name: "note".to_string(), required: false, type_description: "Primitive(String)".to_string() },
        ],
        properties,
        current_snapshot: snapshot,
    }
}

fn get(props: &Properties, key: &str) -> Option<String> {
    props.get(&key.to_string())
}

#[test]
fn new_handle_splits_the_dotted_namespace() {
    let h = handle();
    let ident = h.build_table_ident();
    assert_eq!(ident.namespace.parts, vec!["db".to_string(), "schema".to_string()]);
    assert_eq!(ident.name, "events");
    assert!(!h.is_cached());
    let client = h.get_catalog();
    assert_eq!(get(&client, "uri"), Some("http://localhost:8181".to_string()));
    assert_eq!(get(&client, "warehouse"), Some("wh".to_string()));
}

#[test]
fn metadata_reply_has_the_six_entries() {
    let reply = metadata_of(&info(None));
    assert_eq!(reply.len(), 6);
    assert_eq!(get(&reply, "table_uuid"), Some("9c12d441-03fe-4693-9a96-a0705ddf69c1".to_string()));
    assert_eq!(get(&reply, "format_version"), Some("2".to_string()));
    assert_eq!(get(&reply, "location"), Some("s3://bucket/db/events".to_string()));
    assert_eq!(get(&reply, "schema_id"), Some("3".to_string()));
    assert_eq!(
        get(&reply, "fields"),
        Some(
            "[{\"id\":1,\"name\":\"id\",\"required\":true,\"type\":\"Primitive(Long)\"},{\"id\":2,\"name\":\"note\",\"required\":false,\"type\":\"Primitive(String)\"}]"
                .to_string()
        )
    );
    assert_eq!(get(&reply, "properties"), Some("{\"owner\":\"me \\\"x\\\"\"}".to_string()));
}

#[test]
fn metadata_of_an_empty_table_description() {
    let empty = TableInfo {
        identifier: String::new(),
        table_uuid: String::new(),
        format_version: 1,
        location: String::new(),
        schema_id: -1,
        fields: Vec::new(),
        properties: Properties::new(),
        current_snapshot: None,
    };
    let reply = metadata_of(&empty);
    assert_eq!(get(&reply, "schema_id"), Some("-1".to_string()));
    assert_eq!(get(&reply, "fields"), Some("[]".to_string()));
    assert_eq!(get(&reply, "properties"), Some("{}".to_string()));
}

#[test]
fn inspection_lists_the_snapshot_only_where_there_is_one() {
    let without = inspection_of(&info(None));
    assert_eq!(without.len(), 3);
    assert_eq!(
        get(&without, "identifier"),
        Some("TableIdent { namespace: NamespaceIdent([\"db\"]), name: \"events\" }".to_string())
    );
    assert_eq!(get(&without, "location"), Some("s3://bucket/db/events".to_string()));
    assert_eq!(get(&without, "table_uuid"), Some("9c12d441-03fe-4693-9a96-a0705ddf69c1".to_string()));
    assert_eq!(get(&without, "current_snapshot_id"), None);
    let with = inspection_of(&info(Some(SnapshotInfo { snapshot_id: 3051729675574597004, sequence_number: 7 })));
    assert_eq!(with.len(), 5);
    assert_eq!(get(&with, "current_snapshot_id"), Some("3051729675574597004".to_string()));
    assert_eq!(get(&with, "sequence_number"), Some("7".to_string()));
}

#[test]
fn metadata_twice_loads_once() {
    let mut h = handle();
    let mut loads = 0;
    for _ in 0..2 {
        match h.plan(TableRequest::Metadata { use_cache: true }) {
            TableAction::Load => {
                loads += 1;
                assert!(h.get_metadata_cached(Ok(info(None))).is_ok());
            }
            TableAction::Reply(snapshot) => {
                assert_eq!(get(&snapshot, "schema_id"), Some("3".to_string()));
            }
            TableAction::Finished => panic!("a metadata request is never finished at once"),
        }
    }
    assert_eq!(loads, 1);
    assert!(matches!(h.plan(TableRequest::Invalidate), TableAction::Finished));
    assert!(!h.is_cached());
    assert!(matches!(h.plan(TableRequest::Metadata { use_cache: true }), TableAction::Load));
}

fn serve(h: &mut SmartTableResource, request: TableRequest, loads: &mut u32) -> Option<Properties> {
    match h.plan(request) {
        TableAction::Reply(snapshot) => Some(snapshot),
        TableAction::Finished => None,
        TableAction::Load => {
            *loads += 1;
            match request {
                TableRequest::Inspect => h.get_inspect_data(Ok(info(None))).ok(),
                _ => h.get_metadata_cached(Ok(info(None))).ok(),
            }
        }
    }
}

#[test]
fn loads_are_counted_as_the_cache_decides() {
    let mut h = handle();
    let mut loads = 0;
    let cached = TableRequest::Metadata { use_cache: true };
    assert!(serve(&mut h, cached, &mut loads).is_some());
    assert!(serve(&mut h, cached, &mut loads).is_some());
    assert_eq!(loads, 1);
    assert!(serve(&mut h, TableRequest::Inspect, &mut loads).is_some());
    assert_eq!(loads, 2);
    assert!(serve(&mut h, TableRequest::Invalidate, &mut loads).is_none());
    assert_eq!(loads, 2);
    assert!(serve(&mut h, cached, &mut loads).is_some());
    assert_eq!(loads, 3);
    assert!(serve(&mut h, TableRequest::Metadata { use_cache: false }, &mut loads).is_some());
    assert_eq!(loads, 4);
    assert!(serve(&mut h, cached, &mut loads).is_some());
    assert_eq!(loads, 4);
}

#[test]
fn inspect_loads_even_when_the_cache_is_warm() {
    let mut h = handle();
    assert!(matches!(h.plan(TableRequest::Inspect), TableAction::Load));
    assert!(h.get_metadata_cached(Ok(info(None))).is_ok());
    assert!(h.is_cached());
    assert!(matches!(h.plan(TableRequest::Inspect), TableAction::Load));
    let reply = h.get_inspect_data(Ok(info(None))).unwrap();
    assert_eq!(reply.len(), 3);
    assert!(h.is_cached());
}

#[test]
fn forced_refetch_overwrites_the_cache() {
    let mut h = handle();
    assert!(h.get_metadata_cached(Ok(info(None))).is_ok());
    assert!(matches!(h.plan(TableRequest::Metadata { use_cache: false }), TableAction::Load));
    let mut newer = info(None);
    newer.schema_id = 4;
    let reply = h.get_metadata_cached(Ok(newer)).unwrap();
    assert_eq!(get(&reply, "schema_id"), Some("4".to_string()));
    match h.plan(TableRequest::Metadata { use_cache: true }) {
        TableAction::Reply(snapshot) => assert_eq!(get(&snapshot, "schema_id"), Some("4".to_string())),
        _ => panic!("the cache should serve the request"),
    }
}

#[test]
fn failed_load_leaves_the_cache_alone() {
    let mut h = handle();
    assert_eq!(
        h.get_metadata_cached(Err("dropped".to_string())).unwrap_err(),
        "Failed to load table: dropped"
    );
    assert!(!h.is_cached());
    assert!(h.get_metadata_cached(Ok(info(None))).is_ok());
    assert!(h.get_metadata_cached(Err("dropped".to_string())).is_err());
    assert!(h.is_cached());
    assert_eq!(
        h.get_inspect_data(Err("dropped".to_string())).unwrap_err(),
        "Failed to load table: dropped"
    );
    assert_eq!(
        SmartTableResource::get_table(Err("x".to_string())).unwrap_err(),
        "Failed to load table: x"
    );
}

#[test]
fn invalidate_always_succeeds() {
    let mut h = handle();
    assert_eq!(table_invalidate_cache(&mut h), Status::Success);
    assert!(h.get_metadata_cached(Ok(info(None))).is_ok());
    assert_eq!(table_invalidate_cache(&mut h), Status::Success);
    assert!(!h.is_cached());
    h.invalidate_cache();
    assert!(!h.is_cached());
}

#[test]
fn table_replies_put_the_diagnostic_under_error() {
    let (status, reply) = table_metadata(Err("Failed to load table: x".to_string()));
    assert_eq!(status, Status::Failure);
    assert_eq!(reply.pairs(), vec![("error".to_string(), "Failed to load table: x".to_string())]);
    let (status, reply) = table_metadata_ref(Ok(metadata_of(&info(None))));
    assert_eq!(status, Status::Success);
    assert_eq!(reply.len(), 6);
    let (status, reply) = table_inspect(Ok(inspection_of(&info(None))));
    assert_eq!(status, Status::Success);
    assert_eq!(reply.len(), 3);
    let (status, _) = table_inspect(Err("e".to_string()));
    assert_eq!(status, Status::Failure);
}

#[test]
fn metadata_falls_back_where_a_text_is_missing() {
    let table = info(None);
    let both = metadata_from(&table, Some("[1]".to_string()), Some("{\"a\":\"b\"}".to_string()));
    assert_eq!(get(&both, "fields"), Some("[1]".to_string()));
    assert_eq!(get(&both, "properties"), Some("{\"a\":\"b\"}".to_string()));
    assert_eq!(get(&both, "format_version"), Some("2".to_string()));
    let neither = metadata_from(&table, None, None);
    assert_eq!(neither.len(), 6);
    assert_eq!(get(&neither, "fields"), Some("[]".to_string()));
    assert_eq!(get(&neither, "properties"), Some("{}".to_string()));
    assert_eq!(get(&neither, "table_uuid"), Some("9c12d441-03fe-4693-9a96-a0705ddf69c1".to_string()));
    assert_eq!(get(&neither, "location"), Some("s3://bucket/db/events".to_string()));
    assert_eq!(get(&neither, "schema_id"), Some("3".to_string()));
    let mixed = metadata_from(&table, None, Some("{}".to_string()));
    assert_eq!(get(&mixed, "fields"), Some("[]".to_string()));
}

#[test]
fn field_records_pair_each_value_with_its_key() {
    let records = field_records(&info(None).fields);
    assert_eq!(records.len(), 2);
    assert_eq!(records[0].id, ("id".to_string(), 1));
    assert_eq!(records[0].name, ("name".to_string(), "id".to_string()));
    assert_eq!(records[0].required, ("required".to_string(), true));
    assert_eq!(records[0].kind, ("type".to_string(), "Primitive(Long)".to_string()));
    assert_eq!(records[1].id, ("id".to_string(), 2));
    assert_eq!(records[1].required, ("required".to_string(), false));
    assert!(field_records(&Vec::new()).is_empty());
}
