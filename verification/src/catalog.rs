//! The catalog handle: an immutable connection descriptor, the properties a
//! client is built from, and the replies to the catalog operations.

use vstd::prelude::*;
use vstd::string::*;
use crate::outside::{
    error_rendering, error_text, namespace_from_vec, namespace_inner, namespace_segments,
    table_ident_new, table_name, table_namespace,
};
use crate::props::Properties;
use crate::schema::{
    assigned_ids, build_schema_fields, field_ids, fields_match, members_respect, schema_error,
    schema_slots, SchemaBuildError, SchemaField,
};
use crate::table::SmartTableResource;
use crate::text::{join_dotted, joined, texts_of};
use crate::types::{ElixirNamespaceIdent, ElixirTableIdent, IcebergField, Status};

verus! {

/// What the host supplies to open a connection.
#[derive(Debug)]
pub struct CatalogConfig {
    pub uri: String,
    pub warehouse: Option<String>,
    pub token: Option<String>,
    pub credential: Option<String>,
    pub oauth2_server_uri: Option<String>,
    pub scope: Option<String>,
    pub audience: Option<String>,
    pub resource: Option<String>,
}

/// A catalog handle: the endpoint, the warehouse and the auxiliary
/// properties of one connection. It holds no live client.
#[derive(Debug)]
pub struct RestCatalogResource {
    uri: String,
    warehouse: Option<String>,
    props: Properties,
}

/// A catalog handle as plain values.
pub struct CatalogView {
    pub uri: Seq<char>,
    pub warehouse: Option<Seq<char>>,
    pub props: Map<Seq<char>, Seq<char>>,
}

/// The reply to an operation that yields a table handle.
#[derive(Debug)]
pub enum TableResult {
    Table(SmartTableResource),
    Error(String),
}

/// An optional string as an optional text.
pub open spec fn opt_text(o: Option<String>) -> Option<Seq<char>> {
    match o {
        Some(s) => Some(s@),
        None => None,
    }
}

/// The map with the value under the key, where there is a value.
pub open spec fn with_option(
    m: Map<Seq<char>, Seq<char>>,
    key: Seq<char>,
    value: Option<Seq<char>>,
) -> Map<Seq<char>, Seq<char>> {
    match value {
        Some(v) => m.insert(key, v),
        None => m,
    }
}

/// The auxiliary properties that a configuration gives: one entry for each
/// credential or OAuth2 parameter that is present.
pub open spec fn config_properties(config: CatalogConfig) -> Map<Seq<char>, Seq<char>> {
    let m0 = Map::<Seq<char>, Seq<char>>::empty();
    let m1 = with_option(m0, "credential"@, opt_text(config.credential));
    let m2 = with_option(m1, "oauth2-server-uri"@, opt_text(config.oauth2_server_uri));
    let m3 = with_option(m2, "scope"@, opt_text(config.scope));
    let m4 = with_option(m3, "token"@, opt_text(config.token));
    let m5 = with_option(m4, "audience"@, opt_text(config.audience));
    with_option(m5, "resource"@, opt_text(config.resource))
}

/// The properties that a client is built from: the auxiliary properties,
/// then the endpoint under `uri` and, where there is one, the warehouse under
/// `warehouse`.
pub open spec fn client_properties(
    uri: Seq<char>,
    warehouse: Option<Seq<char>>,
    props: Map<Seq<char>, Seq<char>>,
) -> Map<Seq<char>, Seq<char>> {
    with_option(props.insert("uri"@, uri), "warehouse"@, warehouse)
}

/// A copy of an optional string.
pub(crate) fn copy_option(o: &Option<String>) -> (r: Option<String>)
    ensures
        r == *o,
{
    match o {
        Some(s) => Some(s.clone()),
        None => None,
    }
}

/// Puts the value under the key, where there is a value.
fn insert_option(props: &mut Properties, key: &str, value: Option<String>)
    ensures
        final(props)@ == with_option(old(props)@, key@, opt_text(value)),
{
    match value {
        Some(v) => {
            props.insert(key.to_owned(), v);
        },
        None => {},
    }
}

/// Builds the properties of a client from a descriptor.
pub fn build_config(uri: &String, warehouse: &Option<String>, props: &Properties) -> (r:
    Properties)
    ensures
        r@ == client_properties(uri@, opt_text(*warehouse), props@),
{
    let mut out = props.duplicate();
    out.insert("uri".to_owned(), uri.clone());
    insert_option(&mut out, "warehouse", copy_option(warehouse));
    out
}

impl View for RestCatalogResource {
    type V = CatalogView;

    closed spec fn view(&self) -> CatalogView {
        CatalogView { uri: self.uri@, warehouse: opt_text(self.warehouse), props: self.props@ }
    }
}

impl RestCatalogResource {
    /// A handle for the given endpoint, warehouse and auxiliary properties.
    pub fn new(uri: String, warehouse: Option<String>, props: Properties) -> (r: Self)
        ensures
            r@ == (CatalogView { uri: uri@, warehouse: opt_text(warehouse), props: props@ }),
    {
        RestCatalogResource { uri, warehouse, props }
    }

    /// The properties from which every operation of this handle builds its
    /// client.
    pub fn get_catalog(&self) -> (r: Properties)
        ensures
            r@ == client_properties(self@.uri, self@.warehouse, self@.props),
    {
        build_config(&self.uri, &self.warehouse, &self.props)
    }

    /// The endpoint.
    pub fn uri(&self) -> (r: String)
        ensures
            r@ == self@.uri,
    {
        self.uri.clone()
    }

    /// The warehouse, where there is one.
    pub fn warehouse(&self) -> (r: Option<String>)
        ensures
            opt_text(r) == self@.warehouse,
    {
        copy_option(&self.warehouse)
    }

    /// The auxiliary properties.
    pub fn props(&self) -> (r: Properties)
        ensures
            r@ == self@.props,
    {
        self.props.duplicate()
    }

    /// A table handle on this connection, with a cold cache.
    pub fn table_handle(&self, table_ident: &ElixirTableIdent) -> (r: SmartTableResource)
        ensures
            r@.uri == self@.uri,
            r@.warehouse == self@.warehouse,
            r@.props == self@.props,
            r@.namespace == table_ident.namespace@,
            r@.table_name == table_ident.name@,
            r@.cache is None,
    {
        SmartTableResource::for_table(
            self.uri.clone(),
            copy_option(&self.warehouse),
            self.props.duplicate(),
            table_ident.duplicate(),
        )
    }
}

/// Opens a handle from a configuration. The handle keeps the endpoint and
/// the warehouse as given and holds one auxiliary property for each
/// credential or OAuth2 parameter that is present.
pub fn rest_catalog_new(config: CatalogConfig) -> (r: RestCatalogResource)
    ensures
        r@ == (CatalogView {
            uri: config.uri@,
            warehouse: opt_text(config.warehouse),
            props: config_properties(config),
        }),
{
    let mut props = Properties::new();
    insert_option(&mut props, "credential", config.credential);
    insert_option(&mut props, "oauth2-server-uri", config.oauth2_server_uri);
    insert_option(&mut props, "scope", config.scope);
    insert_option(&mut props, "token", config.token);
    insert_option(&mut props, "audience", config.audience);
    insert_option(&mut props, "resource", config.resource);
    RestCatalogResource::new(config.uri, config.warehouse, props)
}

/// Turns the error of an outcome into the text that the client library
/// renders for it, and leaves a success as it is.
pub fn described<T>(outcome: Result<T, iceberg::Error>) -> (r: Result<T, String>)
    ensures
        outcome matches Ok(v) ==> r == Ok::<T, String>(v),
        outcome matches Err(e) ==> (r matches Err(text) && text@ == error_rendering(e)),
{
    match outcome {
        Ok(v) => Ok(v),
        Err(e) => Err(error_text(&e)),
    }
}

/// What an operation on the executor came to, as an ordinary result. `None`
/// stands for an operation that panicked: it becomes an error like any other
/// and never unwinds further.
pub fn settled<T>(completion: Option<Result<T, iceberg::Error>>) -> (r: Result<T, String>)
    ensures
        match completion {
            Some(outcome) => {
                &&& outcome matches Ok(v) ==> r == Ok::<T, String>(v)
                &&& outcome matches Err(e) ==> (r matches Err(text) && text@ == error_rendering(
                    e,
                ))
            },
            None => r matches Err(text) && text@ == "the catalog operation panicked"@,
        },
{
    match completion {
        Some(outcome) => described(outcome),
        None => Err("the catalog operation panicked".to_owned()),
    }
}

/// The diagnostic of a failed operation: the operation's prefix, then the
/// text of the error.
pub fn failure_message(prefix: &str, text: &str) -> (r: String)
    ensures
        r@ == prefix@ + text@,
{
    let mut out = prefix.to_owned();
    out.append(text);
    out
}

/// The namespace with the single segment `text`.
fn single_segment(text: String) -> (r: ElixirNamespaceIdent)
    ensures
        r@ == seq![text@],
{
    let mut parts: Vec<String> = Vec::new();
    parts.push(text);
    let r = ElixirNamespaceIdent { parts };
    proof {
        assert(r@ =~= seq![text@]);
    }
    r
}

/// The map with the single entry `key` to `value`.
fn single_entry(key: &str, value: String) -> (r: Properties)
    ensures
        r@ == Map::<Seq<char>, Seq<char>>::empty().insert(key@, value@),
{
    let mut out = Properties::new();
    out.insert(key.to_owned(), value);
    out
}

/// The namespace identifier of the client library for a namespace, or the
/// diagnostic `Invalid namespace` where the namespace has no segment.
pub fn to_namespace_ident(namespace: &ElixirNamespaceIdent) -> (r: Result<
    iceberg::NamespaceIdent,
    String,
>)
    ensures
        r is Ok <==> namespace.is_valid(),
        r matches Ok(ns) ==> namespace_segments(ns) == namespace@,
        r matches Err(text) ==> text@ == "Invalid namespace"@,
{
    let copy = namespace.duplicate();
    match namespace_from_vec(copy.parts) {
        Ok(ns) => Ok(ns),
        Err(_) => Err("Invalid namespace".to_owned()),
    }
}

/// The table identifier of the client library for a table identifier: it
/// holds the same namespace segments and the same table name. Where the
/// namespace has no segment, the diagnostic `Invalid namespace`.
pub fn to_table_ident(table_ident: &ElixirTableIdent) -> (r: Result<iceberg::TableIdent, String>)
    ensures
        r is Ok <==> table_ident.namespace.is_valid(),
        r matches Ok(id) ==> table_namespace(id) == table_ident.namespace@ && table_name(id)
            == table_ident.name@,
        r matches Err(text) ==> text@ == "Invalid namespace"@,
{
    match to_namespace_ident(&table_ident.namespace) {
        Ok(ns) => Ok(table_ident_new(ns, table_ident.name.clone())),
        Err(text) => Err(text),
    }
}

/// The namespace that a namespace identifier of the client library holds.
pub fn from_namespace_ident(ns: &iceberg::NamespaceIdent) -> (r: ElixirNamespaceIdent)
    ensures
        r@ == namespace_segments(*ns),
{
    ElixirNamespaceIdent { parts: namespace_inner(ns) }
}

/// The reply to a listing of namespaces: the namespaces in the order in
/// which the catalog gave them, or one namespace whose single segment is the
/// diagnostic.
pub fn rest_catalog_list_namespaces(outcome: Result<Vec<iceberg::NamespaceIdent>, String>) -> (r: (
    Status,
    Vec<ElixirNamespaceIdent>,
))
    ensures
        match outcome {
            Ok(found) => {
                &&& r.0 == Status::Success
                &&& r.1@.len() == found@.len()
                &&& forall|i: int|
                    0 <= i < found@.len() ==> (#[trigger] r.1@[i])@ == namespace_segments(found@[i])
            },
            Err(text) => {
                &&& r.0 == Status::Failure
                &&& r.1@.len() == 1
                &&& r.1@[0]@ == seq!["Failed to list namespaces: "@ + text@]
            },
        },
{
    match outcome {
        Ok(found) => {
            let mut out: Vec<ElixirNamespaceIdent> = Vec::new();
            let mut i: usize = 0;
            while i < found.len()
                invariant
                    i <= found@.len(),
                    out@.len() == i,
                    forall|k: int|
                        0 <= k < i ==> (#[trigger] out@[k])@ == namespace_segments(found@[k]),
                decreases found.len() - i,
            {
                out.push(from_namespace_ident(&found[i]));
                i += 1;
            }
            (Status::Success, out)
        },
        Err(text) => {
            let message = failure_message("Failed to list namespaces: ", text.as_str());
            let mut out: Vec<ElixirNamespaceIdent> = Vec::new();
            out.push(single_segment(message));
            (Status::Failure, out)
        },
    }
}

/// The reply to the creation of a namespace: the namespace as the catalog
/// names it, or a namespace whose single segment is the diagnostic.
pub fn rest_catalog_create_namespace(outcome: Result<iceberg::NamespaceIdent, String>) -> (r: (
    Status,
    ElixirNamespaceIdent,
))
    ensures
        match outcome {
            Ok(created) => r.0 == Status::Success && r.1@ == namespace_segments(created),
            Err(text) => r.0 == Status::Failure && r.1@ == seq![
                "Failed to create namespace: "@ + text@,
            ],
        },
{
    match outcome {
        Ok(created) => (Status::Success, from_namespace_ident(&created)),
        Err(text) => {
            let message = failure_message("Failed to create namespace: ", text.as_str());
            (Status::Failure, single_segment(message))
        },
    }
}

/// The answer to an existence check: whether the catalog said that the
/// table exists.
pub open spec fn exists_reply(outcome: Result<bool, String>) -> bool {
    outcome matches Ok(true)
}

/// The reply to an existence check: one boolean and nothing beside it.
/// Every failure is answered `false`, as a table that does not exist is, and
/// the error is dropped: the caller cannot tell "does not exist" from "could
/// not be determined". This loss of precision is kept on purpose.
pub fn rest_catalog_table_exists(outcome: Result<bool, String>) -> (b: bool)
    ensures
        b == exists_reply(outcome),
{
    match outcome {
        Ok(exists) => exists,
        Err(_) => false,
    }
}

/// A failed existence check is answered exactly as the check of a table that
/// does not exist, whatever the error was.
pub proof fn lemma_failure_reads_as_absence(text: String)
    ensures
        exists_reply(Err(text)) == exists_reply(Ok(false)),
        !exists_reply(Err(text)),
{
}

/// The reply to a drop: the identifier of the dropped table, or an
/// identifier named `error` whose namespace is the diagnostic. A failed drop
/// is never reported as a success.
pub fn rest_catalog_drop_table(table_ident: ElixirTableIdent, outcome: Result<(), String>) -> (r: (
    Status,
    ElixirTableIdent,
))
    ensures
        match outcome {
            Ok(_) => r.0 == Status::Success && r.1 == table_ident,
            Err(text) => {
                &&& r.0 == Status::Failure
                &&& r.1.namespace@ == seq!["Failed to drop table: "@ + text@]
                &&& r.1.name@ == "error"@
            },
        },
{
    match outcome {
        Ok(_) => (Status::Success, table_ident),
        Err(text) => {
            let message = failure_message("Failed to drop table: ", text.as_str());
            let failed = ElixirTableIdent {
                namespace: single_segment(message),
                name: "error".to_owned(),
            };
            (Status::Failure, failed)
        },
    }
}

/// The text of a schema error.
pub open spec fn schema_error_text(e: SchemaBuildError) -> Seq<char> {
    match e {
        SchemaBuildError::EmptyFieldList => "a schema or struct needs at least one field"@,
        SchemaBuildError::IdOverflow => "the field identifiers are used up"@,
        SchemaBuildError::DuplicateId => "two fields share one identifier"@,
    }
}

/// The text of a schema error.
pub fn schema_error_message(e: SchemaBuildError) -> (r: String)
    ensures
        r@ == schema_error_text(e),
{
    match e {
        SchemaBuildError::EmptyFieldList => "a schema or struct needs at least one field".to_owned(),
        SchemaBuildError::IdOverflow => "the field identifiers are used up".to_owned(),
        SchemaBuildError::DuplicateId => "two fields share one identifier".to_owned(),
    }
}

/// The schema of a table to create: the schema fields, or the
/// diagnostic of the schema error.
pub fn create_table_schema(fields: &Vec<IcebergField>) -> (r: Result<Vec<SchemaField>, String>)
    ensures
        match r {
            Ok(out) => {
                &&& schema_error(fields@) is None
                &&& out@.len() == fields@.len()
                &&& fields_match(
                    fields@,
                    out@,
                    assigned_ids(schema_slots(fields@)),
                    0,
                    fields@.len(),
                )
                &&& field_ids(out@, out@.len()) == assigned_ids(schema_slots(fields@))
                &&& field_ids(out@, out@.len()).no_duplicates()
                &&& members_respect(fields@, out@)
            },
            Err(text) => {
                &&& schema_error(fields@) matches Some(e)
                &&& text@ == "Failed to create table: "@ + schema_error_text(e)
            },
        },
{
    match build_schema_fields(fields) {
        Ok(out) => Ok(out),
        Err(e) => {
            let reason = schema_error_message(e);
            Err(failure_message("Failed to create table: ", reason.as_str()))
        },
    }
}

/// What is next in the creation of a table.
#[derive(Debug)]
pub enum CreateTableStep {
    /// Ask the client for a table with this schema and hand the outcome back.
    Create(Vec<SchemaField>),
    /// Reply with this; nothing is left to ask of the client.
    Reply(TableResult),
}

/// The reply to a finished creation of a table: a handle for the new table
/// on the connection of the catalog handle, with a cold cache, or the
/// diagnostic.
pub fn create_table_reply(
    catalog: &RestCatalogResource,
    table_ident: &ElixirTableIdent,
    outcome: Result<(), String>,
) -> (r: TableResult)
    ensures
        match outcome {
            Ok(_) => {
                &&& r matches TableResult::Table(handle)
                &&& handle@.uri == catalog@.uri
                &&& handle@.warehouse == catalog@.warehouse
                &&& handle@.props == catalog@.props
                &&& handle@.namespace == table_ident.namespace@
                &&& handle@.table_name == table_ident.name@
                &&& handle@.cache is None
            },
            Err(text) => r matches TableResult::Error(message) && message@
                == "Failed to create table: "@ + text@,
        },
{
    match outcome {
        Ok(_) => TableResult::Table(catalog.table_handle(table_ident)),
        Err(text) => TableResult::Error(
            failure_message("Failed to create table: ", text.as_str()),
        ),
    }
}

/// The creation of a table, step by step. `outcome` is `None` until the
/// client has been asked.
///
/// A field list that is no schema is answered at once with the diagnostic of
/// the schema error, whatever `outcome` holds: the client is never asked for
/// such a table. Otherwise the first step hands out the schema fields for the
/// client, with their identifiers, and the step after the client's answer is
/// the reply: a handle for the new table on the connection of the catalog
/// handle, with a cold cache, or the diagnostic of the client's error.
pub fn rest_catalog_create_table(
    catalog: &RestCatalogResource,
    table_ident: &ElixirTableIdent,
    fields: &Vec<IcebergField>,
    outcome: Option<Result<(), String>>,
) -> (step: CreateTableStep)
    ensures
        match (schema_error(fields@), outcome) {
            (Some(e), _) => step matches CreateTableStep::Reply(TableResult::Error(message))
                && message@ == "Failed to create table: "@ + schema_error_text(e),
            (None, None) => {
                &&& step matches CreateTableStep::Create(out)
                &&& out@.len() == fields@.len()
                &&& fields_match(
                    fields@,
                    out@,
                    assigned_ids(schema_slots(fields@)),
                    0,
                    fields@.len(),
                )
                &&& field_ids(out@, out@.len()) == assigned_ids(schema_slots(fields@))
                &&& field_ids(out@, out@.len()).no_duplicates()
                &&& members_respect(fields@, out@)
            },
            (None, Some(Ok(_))) => {
                &&& step matches CreateTableStep::Reply(TableResult::Table(handle))
                &&& handle@.uri == catalog@.uri
                &&& handle@.warehouse == catalog@.warehouse
                &&& handle@.props == catalog@.props
                &&& handle@.namespace == table_ident.namespace@
                &&& handle@.table_name == table_ident.name@
                &&& handle@.cache is None
            },
            (None, Some(Err(text))) => step matches CreateTableStep::Reply(
                TableResult::Error(message),
            ) && message@ == "Failed to create table: "@ + text@,
        },
{
    match create_table_schema(fields) {
        Err(message) => CreateTableStep::Reply(TableResult::Error(message)),
        Ok(out) => match outcome {
            None => CreateTableStep::Create(out),
            Some(result) => CreateTableStep::Reply(create_table_reply(catalog, table_ident, result)),
        },
    }
}

/// The reply to the loading of a table: a handle for the table on the
/// connection of the catalog handle, with a cold cache, or the diagnostic.
pub fn rest_catalog_load_table(
    catalog: &RestCatalogResource,
    table_ident: &ElixirTableIdent,
    outcome: Result<(), String>,
) -> (r: TableResult)
    ensures
        match outcome {
            Ok(_) => {
                &&& r matches TableResult::Table(handle)
                &&& handle@.uri == catalog@.uri
                &&& handle@.warehouse == catalog@.warehouse
                &&& handle@.props == catalog@.props
                &&& handle@.namespace == table_ident.namespace@
                &&& handle@.table_name == table_ident.name@
                &&& handle@.cache is None
            },
            Err(text) => r matches TableResult::Error(message) && message@
                == "Failed to load table: "@ + text@,
        },
{
    match outcome {
        Ok(_) => TableResult::Table(catalog.table_handle(table_ident)),
        Err(text) => TableResult::Error(failure_message("Failed to load table: ", text.as_str())),
    }
}

/// The full name of a table: the segments of its namespace and its name,
/// with dots between them.
pub open spec fn full_name(namespace: Seq<Seq<char>>, name: Seq<char>) -> Seq<char> {
    joined(namespace, '.') + seq!['.'] + name
}

/// The full name of a table.
pub fn table_full_name(table_ident: &ElixirTableIdent) -> (r: String)
    ensures
        r@ == full_name(table_ident.namespace@, table_ident.name@),
{
    let mut out = join_dotted(&table_ident.namespace.parts);
    out.append(".");
    out.append(table_ident.name.as_str());
    proof {
        reveal_strlit(".");
        assert(out@ =~= full_name(table_ident.namespace@, table_ident.name@));
    }
    out
}

/// The reply to a rename: under `renamed` the two full names with an arrow
/// between them, or under `error` the diagnostic.
pub fn rest_catalog_rename_table(
    src_table_ident: &ElixirTableIdent,
    dest_table_ident: &ElixirTableIdent,
    outcome: Result<(), String>,
) -> (r: (Status, Properties))
    ensures
        match outcome {
            Ok(_) => r.0 == Status::Success && r.1@ == Map::<Seq<char>, Seq<char>>::empty().insert(
                "renamed"@,
                full_name(src_table_ident.namespace@, src_table_ident.name@) + " -> "@ + full_name(
                    dest_table_ident.namespace@,
                    dest_table_ident.name@,
                ),
            ),
            Err(text) => r.0 == Status::Failure && r.1@ == Map::<Seq<char>, Seq<char>>::empty().insert(
                "error"@,
                "Failed to rename table: "@ + text@,
            ),
        },
{
    match outcome {
        Ok(_) => {
            let mut line = table_full_name(src_table_ident);
            line.append(" -> ");
            let dest = table_full_name(dest_table_ident);
            line.append(dest.as_str());
            (Status::Success, single_entry("renamed", line))
        },
        Err(text) => {
            let message = failure_message("Failed to rename table: ", text.as_str());
            (Status::Failure, single_entry("error", message))
        },
    }
}

/// A handle opened from a configuration builds its clients from exactly
/// what the configuration supplied: the endpoint under `uri`, the warehouse
/// under `warehouse`, each credential or OAuth2 parameter under its name, and
/// nothing else.
pub proof fn lemma_client_uses_config(config: CatalogConfig)
    ensures
        ({
            let m = client_properties(
                config.uri@,
                opt_text(config.warehouse),
                config_properties(config),
            );
            &&& m.dom().contains("uri"@) && m["uri"@] == config.uri@
            &&& entry_is(m, "warehouse"@, opt_text(config.warehouse))
            &&& entry_is(m, "credential"@, opt_text(config.credential))
            &&& entry_is(m, "oauth2-server-uri"@, opt_text(config.oauth2_server_uri))
            &&& entry_is(m, "scope"@, opt_text(config.scope))
            &&& entry_is(m, "token"@, opt_text(config.token))
            &&& entry_is(m, "audience"@, opt_text(config.audience))
            &&& entry_is(m, "resource"@, opt_text(config.resource))
            &&& forall|k: Seq<char>| #[trigger]
                m.dom().contains(k) ==> k == "uri"@ || k == "warehouse"@ || k == "credential"@ || k
                    == "oauth2-server-uri"@ || k == "scope"@ || k == "token"@ || k == "audience"@
                    || k == "resource"@
        }),
{
    reveal_strlit("uri");
    reveal_strlit("warehouse");
    reveal_strlit("credential");
    reveal_strlit("oauth2-server-uri");
    reveal_strlit("scope");
    reveal_strlit("token");
    reveal_strlit("audience");
    reveal_strlit("resource");
    assert("scope"@[0] != "token"@[0]);
    assert("audience"@[0] != "resource"@[0]);
    assert("uri"@.len() == 3);
    assert("warehouse"@.len() == 9);
    assert("credential"@.len() == 10);
    assert("oauth2-server-uri"@.len() == 17);
    assert("scope"@.len() == 5);
    assert("token"@.len() == 5);
    assert("audience"@.len() == 8);
    assert("resource"@.len() == 8);
}

/// Whether the map holds the value under the key where there is one, and
/// nothing under the key where there is none.
pub open spec fn entry_is(
    m: Map<Seq<char>, Seq<char>>,
    key: Seq<char>,
    value: Option<Seq<char>>,
) -> bool {
    match value {
        Some(v) => m.dom().contains(key) && m[key] == v,
        None => !m.dom().contains(key),
    }
}

} // verus!
