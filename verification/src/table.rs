//! The table handle: the identity of a table on a connection, and its
//! metadata cache.
//!
//! A handle holds no live table. The caller loads the table where the handle
//! asks for it and hands the outcome back; the handle decides what is served
//! from the cache and what is stored in it.

use vstd::prelude::*;
use crate::catalog::{build_config, client_properties, failure_message, opt_text};
use crate::outside::{
    json_of_properties, json_of_records, pairs_of, properties_json, record_view, record_views,
    records_json,
};
use crate::props::Properties;
use crate::text::{decimal, decimal_text, split_on};
use crate::types::{
    ElixirNamespaceIdent, ElixirTableIdent, FieldRecord, FieldSummary, Status, TableInfo,
};

verus! {

/// A table handle. The cache is cold until a load has succeeded and after
/// an invalidation.
#[derive(Debug)]
pub struct SmartTableResource {
    uri: String,
    warehouse: Option<String>,
    props: Properties,
    table: ElixirTableIdent,
    metadata_cache: Option<Properties>,
}

/// A table handle as plain values.
pub struct TableView {
    pub uri: Seq<char>,
    pub warehouse: Option<Seq<char>>,
    pub props: Map<Seq<char>, Seq<char>>,
    pub namespace: Seq<Seq<char>>,
    pub table_name: Seq<char>,
    pub cache: Option<Map<Seq<char>, Seq<char>>>,
}

/// What a caller asks of a table handle.
#[derive(Debug, Clone, Copy, PartialEq, Eq, Structural)]
pub enum TableRequest {
    /// The metadata of the table, from the cache where `use_cache` is set.
    Metadata { use_cache: bool },
    /// The inspection data of the table.
    Inspect,
    /// Forget the cached metadata.
    Invalidate,
}

/// What the caller has to do for a request.
#[derive(Debug)]
pub enum TableAction {
    /// Reply with this snapshot; no table is loaded.
    Reply(Properties),
    /// Load the table and hand the outcome to the handle.
    Load,
    /// Nothing is left to do.
    Finished,
}

/// The kind of an action.
#[derive(Debug, Clone, Copy, PartialEq, Eq, Structural)]
pub enum ActionKind {
    Reply,
    Load,
    Finished,
}

/// The action that a request leads to, given the cache.
pub open spec fn planned(cache: Option<Map<Seq<char>, Seq<char>>>, request: TableRequest) -> ActionKind {
    match request {
        TableRequest::Metadata { use_cache } => if use_cache && cache is Some {
            ActionKind::Reply
        } else {
            ActionKind::Load
        },
        TableRequest::Inspect => ActionKind::Load,
        TableRequest::Invalidate => ActionKind::Finished,
    }
}

/// The number of table loads that a request causes, given the cache.
pub open spec fn loads(cache: Option<Map<Seq<char>, Seq<char>>>, request: TableRequest) -> nat {
    if planned(cache, request) == ActionKind::Load {
        1
    } else {
        0
    }
}

/// The cache after a request is done, where a load that it caused succeeded
/// with the metadata `loaded`.
pub open spec fn cache_after(
    cache: Option<Map<Seq<char>, Seq<char>>>,
    request: TableRequest,
    loaded: Map<Seq<char>, Seq<char>>,
) -> Option<Map<Seq<char>, Seq<char>>> {
    match request {
        TableRequest::Metadata { .. } => if planned(cache, request) == ActionKind::Load {
            Some(loaded)
        } else {
            cache
        },
        TableRequest::Inspect => cache,
        TableRequest::Invalidate => None,
    }
}

/// The JSON object that lists a field of the schema: its identifier under
/// `id`, its name under `name`, its flag under `required` and the description
/// of its type under `type`.
pub open spec fn record_of(f: FieldSummary) -> (
    (Seq<char>, int),
    (Seq<char>, Seq<char>),
    (Seq<char>, bool),
    (Seq<char>, Seq<char>),
) {
    (("id"@, f.id as int), ("name"@, f.name@), ("required"@, f.required), ("type"@, f.type_description@))
}

/// The JSON objects that list the fields of a schema, in order.
pub open spec fn records_of(fields: Seq<FieldSummary>) -> Seq<
    ((Seq<char>, int), (Seq<char>, Seq<char>), (Seq<char>, bool), (Seq<char>, Seq<char>)),
> {
    Seq::new(fields.len(), |i: int| record_of(fields[i]))
}

/// Builds the JSON objects that list the fields of a schema.
pub fn field_records(fields: &Vec<FieldSummary>) -> (r: Vec<FieldRecord>)
    ensures
        record_views(r@) == records_of(fields@),
{
    let mut out: Vec<FieldRecord> = Vec::new();
    let mut i: usize = 0;
    while i < fields.len()
        invariant
            i <= fields@.len(),
            out@.len() == i,
            forall|k: int| 0 <= k < i ==> record_view(#[trigger] out@[k]) == record_of(fields@[k]),
        decreases fields.len() - i,
    {
        let f = &fields[i];
        out.push(
            FieldRecord {
                id: ("id".to_owned(), f.id as i64),
                name: ("name".to_owned(), f.name.clone()),
                required: ("required".to_owned(), f.required),
                kind: ("type".to_owned(), f.type_description.clone()),
            },
        );
        i += 1;
    }
    proof {
        assert(record_views(out@) =~= records_of(fields@));
    }
    out
}

/// The metadata reply for a loaded table, given the JSON text of the fields
/// of its current schema and of its properties where they could be written:
/// the table's UUID, format version, location and current schema id, the
/// fields (`[]` where there is no text) and the properties (`{}` where there
/// is no text).
pub open spec fn metadata_map_with(
    info: TableInfo,
    fields_text: Option<Seq<char>>,
    properties_text: Option<Seq<char>>,
) -> Map<Seq<char>, Seq<char>> {
    Map::<Seq<char>, Seq<char>>::empty().insert("table_uuid"@, info.table_uuid@).insert(
        "format_version"@,
        decimal_text(info.format_version as int),
    ).insert("location"@, info.location@).insert(
        "schema_id"@,
        decimal_text(info.schema_id as int),
    ).insert(
        "fields"@,
        match fields_text {
            Some(text) => text,
            None => "[]"@,
        },
    ).insert(
        "properties"@,
        match properties_text {
            Some(text) => text,
            None => "{}"@,
        },
    )
}

/// The metadata reply for a loaded table: as above, with the fields of the
/// current schema as the JSON library writes their objects, and the table
/// properties as it writes them.
pub open spec fn metadata_map(info: TableInfo) -> Map<Seq<char>, Seq<char>> {
    metadata_map_with(
        info,
        json_of_records(records_of(info.fields@)),
        json_of_properties(pairs_of(info.properties.entries())),
    )
}

/// The inspection reply for a loaded table: its identifier, location and
/// UUID and, only where the table has a current snapshot, the snapshot's id
/// and sequence number.
pub open spec fn inspect_map(info: TableInfo) -> Map<Seq<char>, Seq<char>> {
    let base = Map::<Seq<char>, Seq<char>>::empty().insert("identifier"@, info.identifier@).insert(
        "location"@,
        info.location@,
    ).insert("table_uuid"@, info.table_uuid@);
    match info.current_snapshot {
        Some(snapshot) => base.insert(
            "current_snapshot_id"@,
            decimal_text(snapshot.snapshot_id as int),
        ).insert("sequence_number"@, decimal_text(snapshot.sequence_number as int)),
        None => base,
    }
}

/// An optional map as an optional mathematical map.
pub open spec fn opt_map(o: Option<Properties>) -> Option<Map<Seq<char>, Seq<char>>> {
    match o {
        Some(m) => Some(m@),
        None => None,
    }
}

/// Builds the metadata reply for a loaded table from the two JSON texts,
/// each of which may be missing.
pub fn metadata_from(
    info: &TableInfo,
    fields_text: Option<String>,
    properties_text: Option<String>,
) -> (r: Properties)
    ensures
        r@ == metadata_map_with(*info, opt_text(fields_text), opt_text(properties_text)),
{
    let mut out = Properties::new();
    out.insert("table_uuid".to_owned(), info.table_uuid.clone());
    out.insert("format_version".to_owned(), decimal(info.format_version as i64));
    out.insert("location".to_owned(), info.location.clone());
    out.insert("schema_id".to_owned(), decimal(info.schema_id as i64));
    let fields = match fields_text {
        Some(text) => text,
        None => "[]".to_owned(),
    };
    out.insert("fields".to_owned(), fields);
    let properties = match properties_text {
        Some(text) => text,
        None => "{}".to_owned(),
    };
    out.insert("properties".to_owned(), properties);
    out
}

/// Builds the metadata reply for a loaded table.
pub fn metadata_of(info: &TableInfo) -> (r: Properties)
    ensures
        r@ == metadata_map(*info),
{
    let records = field_records(&info.fields);
    let fields_text = records_json(&records);
    let pairs = info.properties.pairs();
    let properties_text = properties_json(&pairs);
    metadata_from(info, fields_text, properties_text)
}

/// Builds the inspection reply for a loaded table.
pub fn inspection_of(info: &TableInfo) -> (r: Properties)
    ensures
        r@ == inspect_map(*info),
{
    let mut out = Properties::new();
    out.insert("identifier".to_owned(), info.identifier.clone());
    out.insert("location".to_owned(), info.location.clone());
    out.insert("table_uuid".to_owned(), info.table_uuid.clone());
    match info.current_snapshot {
        Some(snapshot) => {
            out.insert("current_snapshot_id".to_owned(), decimal(snapshot.snapshot_id));
            out.insert("sequence_number".to_owned(), decimal(snapshot.sequence_number));
        },
        None => {},
    }
    out
}

impl View for SmartTableResource {
    type V = TableView;

    closed spec fn view(&self) -> TableView {
        TableView {
            uri: self.uri@,
            warehouse: opt_text(self.warehouse),
            props: self.props@,
            namespace: self.table.namespace@,
            table_name: self.table.name@,
            cache: opt_map(self.metadata_cache),
        }
    }
}

impl SmartTableResource {
    /// A handle for the table `table_name` in the namespace whose dotted
    /// name is `namespace`, with a cold cache. The dotted name is split at
    /// every dot; no segment is merged or dropped.
    pub fn new(
        uri: String,
        warehouse: Option<String>,
        props: Properties,
        namespace: String,
        table_name: String,
    ) -> (r: Self)
        ensures
            r@ == (TableView {
                uri: uri@,
                warehouse: opt_text(warehouse),
                props: props@,
                namespace: split_on(namespace@, '.'),
                table_name: table_name@,
                cache: None,
            }),
    {
        let namespace = ElixirNamespaceIdent::from_dotted(namespace.as_str());
        SmartTableResource {
            uri,
            warehouse,
            props,
            table: ElixirTableIdent { namespace, name: table_name },
            metadata_cache: None,
        }
    }

    /// A handle for the table with the given identifier, with a cold cache.
    pub fn for_table(
        uri: String,
        warehouse: Option<String>,
        props: Properties,
        table_ident: ElixirTableIdent,
    ) -> (r: Self)
        ensures
            r@ == (TableView {
                uri: uri@,
                warehouse: opt_text(warehouse),
                props: props@,
                namespace: table_ident.namespace@,
                table_name: table_ident.name@,
                cache: None,
            }),
    {
        SmartTableResource { uri, warehouse, props, table: table_ident, metadata_cache: None }
    }

    /// Whether the cache is populated.
    pub fn is_cached(&self) -> (b: bool)
        ensures
            b == (self@.cache is Some),
    {
        self.metadata_cache.is_some()
    }

    /// The identifier of the table.
    pub fn build_table_ident(&self) -> (r: ElixirTableIdent)
        ensures
            r.namespace@ == self@.namespace,
            r.name@ == self@.table_name,
    {
        self.table.duplicate()
    }

    /// The properties from which every operation of this handle builds its
    /// client.
    pub fn get_catalog(&self) -> (r: Properties)
        ensures
            r@ == client_properties(self@.uri, self@.warehouse, self@.props),
    {
        build_config(&self.uri, &self.warehouse, &self.props)
    }

    /// The outcome of a load as the handle reports it: the table, or the
    /// diagnostic.
    pub fn get_table(loaded: Result<TableInfo, String>) -> (r: Result<TableInfo, String>)
        ensures
            match loaded {
                Ok(info) => r == Ok::<TableInfo, String>(info),
                Err(text) => r matches Err(message) && message@ == "Failed to load table: "@
                    + text@,
            },
    {
        match loaded {
            Ok(info) => Ok(info),
            Err(text) => Err(failure_message("Failed to load table: ", text.as_str())),
        }
    }

    /// Decides what a request needs. Metadata is served from the cache
    /// where the request allows it and the cache is populated; otherwise, and
    /// for every inspection, the table has to be loaded. An invalidation
    /// clears the cache at once.
    pub fn plan(&mut self, request: TableRequest) -> (action: TableAction)
        ensures
            action_kind(action) == planned(old(self)@.cache, request),
            action matches TableAction::Reply(snapshot) ==> Some(snapshot@) == old(
                self,
            )@.cache,
            final(self)@ == (TableView {
                cache: if request is Invalidate {
                    None
                } else {
                    old(self)@.cache
                },
                ..old(self)@
            }),
    {
        match request {
            TableRequest::Metadata { use_cache } => {
                if use_cache {
                    match &self.metadata_cache {
                        Some(snapshot) => TableAction::Reply(snapshot.duplicate()),
                        None => TableAction::Load,
                    }
                } else {
                    TableAction::Load
                }
            },
            TableRequest::Inspect => TableAction::Load,
            TableRequest::Invalidate => {
                self.metadata_cache = None;
                TableAction::Finished
            },
        }
    }

    /// Completes a metadata request with the outcome of the load. A loaded
    /// table fills the cache, over whatever was in it, and its metadata is
    /// the reply; a failure leaves the cache as it was.
    pub fn get_metadata_cached(&mut self, loaded: Result<TableInfo, String>) -> (r: Result<
        Properties,
        String,
    >)
        ensures
            match loaded {
                Ok(info) => {
                    &&& r matches Ok(reply)
                    &&& reply@ == metadata_map(info)
                    &&& final(self)@ == (TableView {
                        cache: cache_after(
                            old(self)@.cache,
                            TableRequest::Metadata { use_cache: false },
                            metadata_map(info),
                        ),
                        ..old(self)@
                    })
                    &&& final(self)@.cache == Some(metadata_map(info))
                },
                Err(text) => {
                    &&& r matches Err(message)
                    &&& message@ == "Failed to load table: "@ + text@
                    &&& final(self)@ == old(self)@
                },
            },
    {
        match Self::get_table(loaded) {
            Ok(info) => {
                let reply = metadata_of(&info);
                self.metadata_cache = Some(reply.duplicate());
                Ok(reply)
            },
            Err(message) => Err(message),
        }
    }

    /// Completes an inspection with the outcome of the load. The cache is
    /// neither read nor written.
    pub fn get_inspect_data(&self, loaded: Result<TableInfo, String>) -> (r: Result<
        Properties,
        String,
    >)
        ensures
            match loaded {
                Ok(info) => r matches Ok(reply) && reply@ == inspect_map(info),
                Err(text) => r matches Err(message) && message@ == "Failed to load table: "@
                    + text@,
            },
    {
        match Self::get_table(loaded) {
            Ok(info) => Ok(inspection_of(&info)),
            Err(message) => Err(message),
        }
    }

    /// Clears the cache, whatever it held.
    pub fn invalidate_cache(&mut self)
        ensures
            final(self)@ == (TableView { cache: None, ..old(self)@ }),
    {
        self.metadata_cache = None;
    }
}

/// The kind of an action.
pub open spec fn action_kind(action: TableAction) -> ActionKind {
    match action {
        TableAction::Reply(_) => ActionKind::Reply,
        TableAction::Load => ActionKind::Load,
        TableAction::Finished => ActionKind::Finished,
    }
}

/// The reply of a table operation: the map, or the diagnostic under
/// `error`.
pub fn table_reply(result: Result<Properties, String>) -> (r: (Status, Properties))
    ensures
        match result {
            Ok(m) => r.0 == Status::Success && r.1 == m,
            Err(message) => r.0 == Status::Failure && r.1@ == Map::<
                Seq<char>,
                Seq<char>,
            >::empty().insert("error"@, message@),
        },
{
    match result {
        Ok(m) => (Status::Success, m),
        Err(message) => {
            let mut out = Properties::new();
            out.insert("error".to_owned(), message);
            (Status::Failure, out)
        },
    }
}

/// The reply to a metadata request.
pub fn table_metadata(result: Result<Properties, String>) -> (r: (Status, Properties))
    ensures
        match result {
            Ok(m) => r.0 == Status::Success && r.1 == m,
            Err(message) => r.0 == Status::Failure && r.1@ == Map::<
                Seq<char>,
                Seq<char>,
            >::empty().insert("error"@, message@),
        },
{
    table_reply(result)
}

/// The reply to a metadata request by reference: the same as the reply to a
/// metadata request.
pub fn table_metadata_ref(result: Result<Properties, String>) -> (r: (Status, Properties))
    ensures
        match result {
            Ok(m) => r.0 == Status::Success && r.1 == m,
            Err(message) => r.0 == Status::Failure && r.1@ == Map::<
                Seq<char>,
                Seq<char>,
            >::empty().insert("error"@, message@),
        },
{
    table_reply(result)
}

/// The reply to an inspection.
pub fn table_inspect(result: Result<Properties, String>) -> (r: (Status, Properties))
    ensures
        match result {
            Ok(m) => r.0 == Status::Success && r.1 == m,
            Err(message) => r.0 == Status::Failure && r.1@ == Map::<
                Seq<char>,
                Seq<char>,
            >::empty().insert("error"@, message@),
        },
{
    table_reply(result)
}

/// Clears the cache of a handle; this always succeeds.
pub fn table_invalidate_cache(table_resource: &mut SmartTableResource) -> (r: Status)
    ensures
        r == Status::Success,
        final(table_resource)@ == (TableView { cache: None, ..old(table_resource)@ }),
{
    table_resource.invalidate_cache();
    Status::Success
}

/// Two metadata requests with the cache allowed, on a cold handle and with
/// no invalidation between them, load the table once: the first loads it and
/// the second is served what the first stored.
pub proof fn lemma_metadata_twice_loads_once(loaded: Map<Seq<char>, Seq<char>>)
    ensures
        ({
            let request = TableRequest::Metadata { use_cache: true };
            let cold: Option<Map<Seq<char>, Seq<char>>> = None;
            let warm = cache_after(cold, request, loaded);
            &&& loads(cold, request) == 1
            &&& warm == Some(loaded)
            &&& loads(warm, request) == 0
            &&& cache_after(warm, request, loaded) == warm
        }),
{
}

/// A populated cache serves every metadata request that allows it, from
/// whatever state it was filled.
pub proof fn lemma_populated_cache_serves(
    cache: Option<Map<Seq<char>, Seq<char>>>,
    use_cache: bool,
    loaded: Map<Seq<char>, Seq<char>>,
)
    ensures
        ({
            let first = TableRequest::Metadata { use_cache };
            let again = TableRequest::Metadata { use_cache: true };
            &&& cache_after(cache, first, loaded) is Some
            &&& loads(cache_after(cache, first, loaded), again) == 0
            &&& loads(cache, first) + loads(cache_after(cache, first, loaded), again) <= 1
        }),
{
}

/// After an invalidation the next metadata request loads the table again,
/// whatever the cache held.
pub proof fn lemma_invalidate_forces_load(
    cache: Option<Map<Seq<char>, Seq<char>>>,
    use_cache: bool,
    loaded: Map<Seq<char>, Seq<char>>,
)
    ensures
        cache_after(cache, TableRequest::Invalidate, loaded) is None,
        loads(
            cache_after(cache, TableRequest::Invalidate, loaded),
            TableRequest::Metadata { use_cache },
        ) == 1,
{
}

/// An inspection loads the table in every state of the cache, also right
/// after a metadata request has filled it, and leaves the cache as it was.
pub proof fn lemma_inspect_always_loads(
    cache: Option<Map<Seq<char>, Seq<char>>>,
    loaded: Map<Seq<char>, Seq<char>>,
)
    ensures
        loads(cache, TableRequest::Inspect) == 1,
        cache_after(cache, TableRequest::Inspect, loaded) == cache,
        loads(
            cache_after(cache, TableRequest::Metadata { use_cache: true }, loaded),
            TableRequest::Inspect,
        ) == 1,
{
}

} // verus!
