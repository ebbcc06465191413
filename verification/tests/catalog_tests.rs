use ex_iceberg::catalog::{
    create_table_reply, create_table_schema, described, failure_message, settled, from_namespace_ident, rest_catalog_create_namespace,
    rest_catalog_create_table, rest_catalog_drop_table, rest_catalog_list_namespaces,
    rest_catalog_load_table, rest_catalog_new, rest_catalog_rename_table, rest_catalog_table_exists,
    table_full_name, to_namespace_ident, to_table_ident, CatalogConfig, CreateTableStep,
    RestCatalogResource, TableResult,
};
use ex_iceberg::schema::SchemaType;
use ex_iceberg::props::Properties;
use ex_iceberg::types::{ElixirNamespaceIdent, ElixirTableIdent, IcebergField, IcebergFieldType, Status};

fn strings(parts: &[&str]) -> Vec<String> {
    parts.iter().map(|s| s.to_string()).collect()
}

fn table(namespace: &[&str], name: &str) -> ElixirTableIdent {
    ElixirTableIdent { namespace: ElixirNamespaceIdent { parts: strings(namespace) }, name: name.to_string() }
}

fn full_config() -> CatalogConfig {
    CatalogConfig {
        uri: "http://localhost:8181".to_string(),
        warehouse: Some("s3://bucket/wh".to_string()),
        token: Some("tok".to_string()),
        credential: Some("id:secret".to_string()),
        oauth2_server_uri: Some("http://auth/token".to_string()),
        scope: Some("catalog".to_string()),
        audience: Some("aud".to_string()),
        resource: Some("res".to_string()),
    }
}

fn bare_config() -> CatalogConfig {
    CatalogConfig {
        uri: "http://localhost:8181".to_string(),
        warehouse: None,
        token: None,
        credential: None,
        oauth2_server_uri: None,
        scope: None,
        audience: None,
        resource: None,
    }
}

fn get(props: &Properties, key: &str) -> Option<String> {
    props.get(&key.to_string())
}

#[test]
fn new_handle_keeps_what_the_config_supplied() {
    let handle = rest_catalog_new(full_config());
    assert_eq!(handle.uri(), "http://localhost:8181");
    assert_eq!(handle.warehouse(), Some("s3://bucket/wh".to_string()));
    let props = handle.props();
    assert_eq!(props.len(), 6);
    assert_eq!(get(&props, "token"), Some("tok".to_string()));
    assert_eq!(get(&props, "credential"), Some("id:secret".to_string()));
    assert_eq!(get(&props, "oauth2-server-uri"), Some("http://auth/token".to_string()));
    assert_eq!(get(&props, "scope"), Some("catalog".to_string()));
    assert_eq!(get(&props, "audience"), Some("aud".to_string()));
    assert_eq!(get(&props, "resource"), Some("res".to_string()));
}

#[test]
fn client_properties_hold_uri_and_warehouse() {
    let handle = rest_catalog_new(full_config());
    let client = handle.get_catalog();
    assert_eq!(client.len(), 8);
    assert_eq!(get(&client, "uri"), Some("http://localhost:8181".to_string()));
    assert_eq!(get(&client, "warehouse"), Some("s3://bucket/wh".to_string()));
    assert_eq!(get(&client, "token"), Some("tok".to_string()));
}

#[test]
fn bare_config_gives_only_the_uri() {
    let handle = rest_catalog_new(bare_config());
    assert_eq!(handle.warehouse(), None);
    assert_eq!(handle.props().len(), 0);
    let client = handle.get_catalog();
    assert_eq!(client.pairs(), vec![("uri".to_string(), "http://localhost:8181".to_string())]);
}

#[test]
fn descriptor_uri_overrides_a_property_named_uri() {
    let mut props = Properties::new();
    props.insert("uri".to_string(), "stale".to_string());
    props.insert("warehouse".to_string(), "old".to_string());
    props.insert("x".to_string(), "y".to_string());
    let handle = RestCatalogResource::new("fresh".to_string(), None, props);
    let client = handle.get_catalog();
    assert_eq!(get(&client, "uri"), Some("fresh".to_string()));
    assert_eq!(get(&client, "warehouse"), Some("old".to_string()));
    assert_eq!(get(&client, "x"), Some("y".to_string()));
    assert_eq!(client.len(), 3);
}

#[test]
fn described_renders_the_library_error() {
    let failed: Result<bool, iceberg::Error> =
        Err(iceberg::Error::new(iceberg::ErrorKind::Unexpected, "boom"));
    assert_eq!(described(failed), Err("Unexpected => boom".to_string()));
    let fine: Result<bool, iceberg::Error> = Ok(true);
    assert_eq!(described(fine), Ok(true));
}

#[test]
fn failure_message_puts_the_prefix_first() {
    assert_eq!(failure_message("Failed to drop table: ", "gone"), "Failed to drop table: gone");
    assert_eq!(failure_message("", ""), "");
}

#[test]
fn namespace_ident_holds_the_segments() {
    let ns = ElixirNamespaceIdent { parts: strings(&["db", "schema"]) };
    let ident = to_namespace_ident(&ns).unwrap();
    assert_eq!(ident.clone().inner(), strings(&["db", "schema"]));
    let back = from_namespace_ident(&ident);
    assert_eq!(back.parts, strings(&["db", "schema"]));
}

#[test]
fn empty_namespace_is_invalid() {
    let ns = ElixirNamespaceIdent { parts: Vec::new() };
    assert!(!ns.has_segments());
    assert_eq!(to_namespace_ident(&ns), Err("Invalid namespace".to_string()));
    assert_eq!(to_table_ident(&table(&[], "t")), Err("Invalid namespace".to_string()));
}

#[test]
fn table_ident_holds_namespace_and_name() {
    let ident = to_table_ident(&table(&["a", "b"], "t1")).unwrap();
    assert_eq!(ident.name(), "t1");
    assert_eq!(ident.namespace().clone().inner(), strings(&["a", "b"]));
    let other = to_table_ident(&table(&["c"], "")).unwrap();
    assert_eq!(other.name(), "");
    assert_eq!(other.namespace().clone().inner(), strings(&["c"]));
}

#[test]
fn described_keeps_context_and_message_of_the_error() {
    let error = iceberg::Error::new(iceberg::ErrorKind::DataInvalid, "no such table")
        .with_context("table", "a.b.t1");
    let failed: Result<(), iceberg::Error> = Err(error);
    assert_eq!(
        described(failed),
        Err("DataInvalid, context: { table: a.b.t1 } => no such table".to_string())
    );
}

#[test]
fn list_namespaces_reply_keeps_order() {
    let found = vec![
        iceberg::NamespaceIdent::from_vec(strings(&["a"])).unwrap(),
        iceberg::NamespaceIdent::from_vec(strings(&["b", "c"])).unwrap(),
    ];
    let (status, namespaces) = rest_catalog_list_namespaces(Ok(found));
    assert_eq!(status, Status::Success);
    assert_eq!(namespaces.len(), 2);
    assert_eq!(namespaces[0].parts, strings(&["a"]));
    assert_eq!(namespaces[1].parts, strings(&["b", "c"]));
}

#[test]
fn list_namespaces_empty_is_a_success() {
    let (status, namespaces) = rest_catalog_list_namespaces(Ok(Vec::new()));
    assert_eq!(status, Status::Success);
    assert!(namespaces.is_empty());
}

#[test]
fn list_namespaces_failure_carries_the_diagnostic() {
    let (status, namespaces) = rest_catalog_list_namespaces(Err("down".to_string()));
    assert_eq!(status, Status::Failure);
    assert_eq!(namespaces.len(), 1);
    assert_eq!(namespaces[0].parts, strings(&["Failed to list namespaces: down"]));
}

#[test]
fn create_namespace_replies() {
    let created = iceberg::NamespaceIdent::from_vec(strings(&["x", "y"])).unwrap();
    let (status, ns) = rest_catalog_create_namespace(Ok(created));
    assert_eq!(status, Status::Success);
    assert_eq!(ns.parts, strings(&["x", "y"]));
    let (status, ns) = rest_catalog_create_namespace(Err("exists".to_string()));
    assert_eq!(status, Status::Failure);
    assert_eq!(ns.parts, strings(&["Failed to create namespace: exists"]));
}

#[test]
fn table_exists_folds_errors_into_false() {
    assert!(rest_catalog_table_exists(Ok(true)));
    assert!(!rest_catalog_table_exists(Ok(false)));
    assert!(!rest_catalog_table_exists(Err("timeout".to_string())));
    assert_eq!(
        rest_catalog_table_exists(Err("timeout".to_string())),
        rest_catalog_table_exists(Ok(false))
    );
}

#[test]
fn drop_of_a_missing_table_is_an_error() {
    let (status, ident) = rest_catalog_drop_table(table(&["a", "b"], "t1"), Err("no such table".to_string()));
    assert_eq!(status, Status::Failure);
    assert_eq!(ident.namespace.parts, strings(&["Failed to drop table: no such table"]));
    assert_eq!(ident.name, "error");
}

#[test]
fn drop_success_returns_the_identifier() {
    let (status, ident) = rest_catalog_drop_table(table(&["a", "b"], "t1"), Ok(()));
    assert_eq!(status, Status::Success);
    assert_eq!(ident.namespace.parts, strings(&["a", "b"]));
    assert_eq!(ident.name, "t1");
}

#[test]
fn rename_replies() {
    let src = table(&["a", "b"], "t1");
    let dst = table(&["c", "d"], "t2");
    let (status, reply) = rest_catalog_rename_table(&src, &dst, Ok(()));
    assert_eq!(status, Status::Success);
    assert_eq!(reply.pairs(), vec![("renamed".to_string(), "a.b.t1 -> c.d.t2".to_string())]);
    let (status, reply) = rest_catalog_rename_table(&src, &dst, Err("conflict".to_string()));
    assert_eq!(status, Status::Failure);
    assert_eq!(reply.pairs(), vec![("error".to_string(), "Failed to rename table: conflict".to_string())]);
}

struct MockCatalog {
    built_from: Vec<(String, String)>,
    tables: Vec<(Vec<String>, String)>,
}

impl MockCatalog {
    fn connect(handle: &RestCatalogResource) -> MockCatalog {
        MockCatalog { built_from: handle.get_catalog().pairs(), tables: Vec::new() }
    }

    fn position(&self, t: &ElixirTableIdent) -> Option<usize> {
        self.tables.iter().position(|(ns, name)| *ns == t.namespace.parts && *name == t.name)
    }

    fn create(&mut self, t: &ElixirTableIdent) {
        self.tables.push((t.namespace.parts.clone(), t.name.clone()));
    }

    fn has_table(&self, t: &ElixirTableIdent) -> Result<bool, String> {
        Ok(self.position(t).is_some())
    }

    fn drop_table(&mut self, t: &ElixirTableIdent) -> Result<(), String> {
        match self.position(t) {
            Some(i) => {
                self.tables.remove(i);
                Ok(())
            }
            None => Err("NoSuchTable => table does not exist".to_string()),
        }
    }

    fn rename(&mut self, src: &ElixirTableIdent, dst: &ElixirTableIdent) -> Result<(), String> {
        match self.position(src) {
            Some(i) => {
                self.tables[i] = (dst.namespace.parts.clone(), dst.name.clone());
                Ok(())
            }
            None => Err("NoSuchTable => table does not exist".to_string()),
        }
    }
}

#[test]
fn mock_client_is_built_from_the_supplied_values() {
    let handle = rest_catalog_new(full_config());
    let first = MockCatalog::connect(&handle);
    let second = MockCatalog::connect(&handle);
    assert_eq!(first.built_from, second.built_from);
    let mut seen = first.built_from.clone();
    seen.sort();
    assert_eq!(
        seen,
        vec![
            ("audience".to_string(), "aud".to_string()),
            ("credential".to_string(), "id:secret".to_string()),
            ("oauth2-server-uri".to_string(), "http://auth/token".to_string()),
            ("resource".to_string(), "res".to_string()),
            ("scope".to_string(), "catalog".to_string()),
            ("token".to_string(), "tok".to_string()),
            ("uri".to_string(), "http://localhost:8181".to_string()),
            ("warehouse".to_string(), "s3://bucket/wh".to_string()),
        ]
    );
}

#[test]
fn rename_then_exists_replies() {
    let handle = rest_catalog_new(bare_config());
    let mut mock = MockCatalog::connect(&handle);
    let src = table(&["a", "b"], "t1");
    let dst = table(&["c", "d"], "t2");
    mock.create(&src);
    let outcome = mock.rename(&src, &dst);
    let (status, reply) = rest_catalog_rename_table(&src, &dst, outcome);
    assert_eq!(status, Status::Success);
    assert_eq!(reply.pairs(), vec![("renamed".to_string(), "a.b.t1 -> c.d.t2".to_string())]);
    assert!(rest_catalog_table_exists(mock.has_table(&dst)));
    assert!(!rest_catalog_table_exists(mock.has_table(&src)));
}

#[test]
fn drop_on_a_mock_without_the_table_is_an_error() {
    let handle = rest_catalog_new(bare_config());
    let mut mock = MockCatalog::connect(&handle);
    let missing = table(&["nowhere"], "ghost");
    let outcome = mock.drop_table(&missing);
    let (status, reply) = rest_catalog_drop_table(missing, outcome);
    assert_eq!(status, Status::Failure);
    assert_eq!(
        reply.namespace.parts,
        strings(&["Failed to drop table: NoSuchTable => table does not exist"])
    );
    let present = table(&["a"], "t");
    mock.create(&present);
    let outcome = mock.drop_table(&present);
    let (status, _) = rest_catalog_drop_table(present, outcome);
    assert_eq!(status, Status::Success);
    assert_eq!(mock.has_table(&table(&["a"], "t")), Ok(false));
}

#[test]
fn full_name_joins_namespace_and_table() {
    assert_eq!(table_full_name(&table(&["db"], "t")), "db.t");
    assert_eq!(table_full_name(&table(&["a", "b", "c"], "t")), "a.b.c.t");
}

#[test]
fn load_table_gives_a_cold_handle_on_the_same_connection() {
    let catalog = rest_catalog_new(full_config());
    match rest_catalog_load_table(&catalog, &table(&["a", "b.c"], "t1"), Ok(())) {
        TableResult::Table(handle) => {
            assert!(!handle.is_cached());
            let ident = handle.build_table_ident();
            assert_eq!(ident.namespace.parts, strings(&["a", "b.c"]));
            assert_eq!(ident.name, "t1");
            assert_eq!(handle.get_catalog().pairs(), catalog.get_catalog().pairs());
        }
        TableResult::Error(message) => panic!("unexpected error {}", message),
    }
}

#[test]
fn load_table_failure_carries_the_diagnostic() {
    let catalog = rest_catalog_new(bare_config());
    match rest_catalog_load_table(&catalog, &table(&["a"], "t"), Err("missing".to_string())) {
        TableResult::Error(message) => assert_eq!(message, "Failed to load table: missing"),
        TableResult::Table(_) => panic!("unexpected handle"),
    }
}

fn one_field(name: &str, id: Option<i32>) -> IcebergField {
    IcebergField { name: name.to_string(), field_type: IcebergFieldType::Int, required: true, field_id: id }
}

#[test]
fn create_table_replies() {
    let catalog = rest_catalog_new(bare_config());
    let fields = vec![one_field("a", None)];
    match rest_catalog_create_table(&catalog, &table(&["a"], "t"), &fields, Some(Ok(()))) {
        CreateTableStep::Reply(TableResult::Table(handle)) => {
            assert!(!handle.is_cached());
            assert_eq!(handle.build_table_ident().name, "t");
            assert_eq!(handle.build_table_ident().namespace.parts, strings(&["a"]));
        }
        other => panic!("unexpected step {:?}", other),
    }
    match rest_catalog_create_table(&catalog, &table(&["a"], "t"), &fields, Some(Err("denied".to_string()))) {
        CreateTableStep::Reply(TableResult::Error(message)) => {
            assert_eq!(message, "Failed to create table: denied")
        }
        other => panic!("unexpected step {:?}", other),
    }
    match create_table_reply(&catalog, &table(&["a"], "t"), Err("denied".to_string())) {
        TableResult::Error(message) => assert_eq!(message, "Failed to create table: denied"),
        TableResult::Table(_) => panic!("unexpected handle"),
    }
}

#[test]
fn create_table_first_hands_out_the_schema() {
    let catalog = rest_catalog_new(bare_config());
    let fields = vec![IcebergField {
        name: "tags".to_string(),
        field_type: IcebergFieldType::List {
            element_type: Box::new(IcebergFieldType::String),
            element_required: true,
        },
        required: true,
        field_id: None,
    }];
    match rest_catalog_create_table(&catalog, &table(&["a"], "t"), &fields, None) {
        CreateTableStep::Create(schema) => {
            assert_eq!(schema.len(), 1);
            assert_eq!(schema[0].name, "tags");
            assert!(schema[0].required);
            match &schema[0].field_type {
                SchemaType::List { element } => {
                    assert_eq!(element.name, "element");
                    assert!(element.required);
                    assert_eq!(element.field_type, SchemaType::String);
                    assert_ne!(element.id, schema[0].id);
                    assert_eq!((element.id, schema[0].id), (1, 2));
                }
                other => panic!("unexpected type {:?}", other),
            }
        }
        other => panic!("unexpected step {:?}", other),
    }
}

#[test]
fn create_table_keeps_an_optional_boolean_element() {
    let catalog = rest_catalog_new(bare_config());
    let fields = vec![IcebergField {
        name: "flags".to_string(),
        field_type: IcebergFieldType::List {
            element_type: Box::new(IcebergFieldType::Boolean),
            element_required: false,
        },
        required: false,
        field_id: None,
    }];
    match rest_catalog_create_table(&catalog, &table(&["a"], "t"), &fields, None) {
        CreateTableStep::Create(schema) => {
            assert_eq!(schema[0].name, "flags");
            assert!(!schema[0].required);
            match &schema[0].field_type {
                SchemaType::List { element } => {
                    assert!(!element.required);
                    assert_eq!(element.field_type, SchemaType::Boolean);
                }
                other => panic!("unexpected type {:?}", other),
            }
        }
        other => panic!("unexpected step {:?}", other),
    }
}

#[test]
fn create_table_answers_a_bad_schema_without_asking_the_client() {
    let catalog = rest_catalog_new(bare_config());
    let empty: Vec<IcebergField> = Vec::new();
    let hollow = vec![IcebergField {
        name: "s".to_string(),
        field_type: IcebergFieldType::Struct { fields: Vec::new() },
        required: true,
        field_id: None,
    }];
    let shared = vec![one_field("a", Some(5)), one_field("b", Some(5))];
    for (fields, expected) in [
        (&empty, "Failed to create table: a schema or struct needs at least one field"),
        (&hollow, "Failed to create table: a schema or struct needs at least one field"),
        (&shared, "Failed to create table: two fields share one identifier"),
    ] {
        for outcome in [None, Some(Ok(())), Some(Err("late".to_string()))] {
            match rest_catalog_create_table(&catalog, &table(&["a"], "t"), fields, outcome) {
                CreateTableStep::Reply(TableResult::Error(message)) => assert_eq!(message, expected),
                other => panic!("unexpected step {:?}", other),
            }
        }
    }
}

#[test]
fn create_table_schema_reports_schema_errors() {
    assert_eq!(
        create_table_schema(&Vec::new()),
        Err("Failed to create table: a schema or struct needs at least one field".to_string())
    );
    let twice = vec![
        IcebergField { name: "a".to_string(), field_type: IcebergFieldType::Int, required: true, field_id: Some(1) },
        IcebergField { name: "b".to_string(), field_type: IcebergFieldType::Int, required: true, field_id: Some(1) },
    ];
    assert_eq!(
        create_table_schema(&twice),
        Err("Failed to create table: two fields share one identifier".to_string())
    );
    let full = vec![
        IcebergField { name: "a".to_string(), field_type: IcebergFieldType::Int, required: true, field_id: Some(i32::MAX) },
        IcebergField { name: "b".to_string(), field_type: IcebergFieldType::Int, required: true, field_id: None },
    ];
    assert_eq!(
        create_table_schema(&full),
        Err("Failed to create table: the field identifiers are used up".to_string())
    );
    let fine = vec![IcebergField {
        name: "a".to_string(),
        field_type: IcebergFieldType::Int,
        required: true,
        field_id: None,
    }];
    assert_eq!(create_table_schema(&fine).unwrap()[0].id, 1);
}

#[test]
fn a_panicked_operation_is_an_ordinary_error() {
    let panicked: Option<Result<bool, iceberg::Error>> = None;
    assert_eq!(settled(panicked), Err("the catalog operation panicked".to_string()));
    let returned: Option<Result<bool, iceberg::Error>> = Some(Ok(false));
    assert_eq!(settled(returned), Ok(false));
    let failed: Option<Result<bool, iceberg::Error>> =
        Some(Err(iceberg::Error::new(iceberg::ErrorKind::DataInvalid, "bad")));
    assert_eq!(settled(failed), Err("DataInvalid => bad".to_string()));
}

#[test]
fn dotted_and_listed_namespaces_agree() {
    let listed = ElixirNamespaceIdent { parts: strings(&["db", "schema"]) };
    let dotted = ElixirNamespaceIdent::from_dotted("db.schema");
    assert_eq!(dotted.parts, listed.parts);
    assert_eq!(listed.to_dotted(), "db.schema");
    assert_eq!(ElixirNamespaceIdent::from_dotted("a..b").parts, strings(&["a", "", "b"]));
    assert!(ElixirNamespaceIdent::from_dotted("").has_segments());
    assert_eq!(listed.duplicate().parts, listed.parts);
}
