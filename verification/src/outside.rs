//! The calls into the catalog client library and the JSON library. Verus
//! takes the contracts in this file on trust.

use vstd::prelude::*;
use crate::text::texts_of;
use crate::types::FieldRecord;

verus! {

/// The error type of the catalog client library. Of a value only the text
/// that it is rendered to is spoken of.
#[verifier::external_type_specification]
#[verifier::external_body]
pub struct ExIcebergError(iceberg::Error);

/// The namespace identifier of the catalog client library: a list of name
/// segments.
#[verifier::external_type_specification]
#[verifier::external_body]
pub struct ExNamespaceIdent(iceberg::NamespaceIdent);

/// The table identifier of the catalog client library: a namespace
/// identifier and a table name.
#[verifier::external_type_specification]
#[verifier::external_body]
pub struct ExTableIdent(iceberg::TableIdent);

/// The name segments that a namespace identifier holds, in order.
pub uninterp spec fn namespace_segments(ns: iceberg::NamespaceIdent) -> Seq<Seq<char>>;

/// The one-line text that `iceberg::Error`'s `Display` writes for an error:
/// its kind, then its context, message and source where it has them.
pub uninterp spec fn error_rendering(e: iceberg::Error) -> Seq<char>;

/// The segments of the namespace that a table identifier holds, in order.
pub uninterp spec fn table_namespace(t: iceberg::TableIdent) -> Seq<Seq<char>>;

/// The table name that a table identifier holds.
pub uninterp spec fn table_name(t: iceberg::TableIdent) -> Seq<char>;

/// The JSON text that `serde_json::to_string` gives for a map from the keys
/// to the values of the entries, taken in order; `None` where it fails.
pub uninterp spec fn json_of_properties(entries: Seq<(Seq<char>, Seq<char>)>) -> Option<Seq<char>>;

/// The JSON text that `serde_json::to_string` gives for a list of objects,
/// one per record, each with the record's four members under their keys;
/// `None` where it fails.
pub uninterp spec fn json_of_records(
    records: Seq<((Seq<char>, int), (Seq<char>, Seq<char>), (Seq<char>, bool), (Seq<char>, Seq<char>))>,
) -> Option<Seq<char>>;

/// The entries as pairs of texts.
pub open spec fn pairs_of(entries: Seq<(String, String)>) -> Seq<(Seq<char>, Seq<char>)> {
    Seq::new(entries.len(), |i: int| (entries[i].0@, entries[i].1@))
}

/// A record as plain values.
pub open spec fn record_view(r: FieldRecord) -> (
    (Seq<char>, int),
    (Seq<char>, Seq<char>),
    (Seq<char>, bool),
    (Seq<char>, Seq<char>),
) {
    ((r.id.0@, r.id.1 as int), (r.name.0@, r.name.1@), (r.required.0@, r.required.1), (r.kind.0@, r.kind.1@))
}

/// The records as plain values.
pub open spec fn record_views(records: Seq<FieldRecord>) -> Seq<
    ((Seq<char>, int), (Seq<char>, Seq<char>), (Seq<char>, bool), (Seq<char>, Seq<char>)),
> {
    Seq::new(records.len(), |i: int| record_view(records[i]))
}

/// `iceberg::Error`'s `Display` through `to_string`: the error in one line.
/// The text is written from the fields of the error and from nothing else.
#[verifier::external_body]
pub(crate) fn error_text(e: &iceberg::Error) -> (text: String)
    ensures
        text@ == error_rendering(*e),
{
    e.to_string()
}

/// `iceberg::NamespaceIdent::from_vec`: fails on an empty list and on no
/// other; the identifier made holds the given segments in order.
#[verifier::external_body]
pub(crate) fn namespace_from_vec(parts: Vec<String>) -> (r: Result<
    iceberg::NamespaceIdent,
    iceberg::Error,
>)
    ensures
        r is Ok <==> parts@.len() > 0,
        r matches Ok(ns) ==> namespace_segments(ns) == texts_of(parts@),
{
    iceberg::NamespaceIdent::from_vec(parts)
}

/// `iceberg::NamespaceIdent::inner`, on a copy of the identifier: hands out
/// the segments that the identifier holds.
#[verifier::external_body]
pub(crate) fn namespace_inner(ns: &iceberg::NamespaceIdent) -> (parts: Vec<String>)
    ensures
        texts_of(parts@) == namespace_segments(*ns),
{
    ns.clone().inner()
}

/// `iceberg::TableIdent::new`: stores the namespace and the name as they are
/// given.
#[verifier::external_body]
pub(crate) fn table_ident_new(namespace: iceberg::NamespaceIdent, name: String) -> (ident:
    iceberg::TableIdent)
    ensures
        table_namespace(ident) == namespace_segments(namespace),
        table_name(ident) == name@,
{
    iceberg::TableIdent::new(namespace, name)
}

/// `serde_json::to_string` on a `serde_json::Map` filled with the entries in
/// order, every value a JSON string. The text depends on the entries alone.
#[verifier::external_body]
pub(crate) fn properties_json(entries: &Vec<(String, String)>) -> (text: Option<String>)
    ensures
        text is Some <==> json_of_properties(pairs_of(entries@)) is Some,
        text matches Some(t) ==> json_of_properties(pairs_of(entries@)) == Some(t@),
{
    let map: serde_json::Map<String, serde_json::Value> = entries.iter().map(
        |e| (e.0.clone(), serde_json::Value::String(e.1.clone())),
    ).collect();
    serde_json::to_string(&map).ok()
}

/// `serde_json::to_string` on a list of JSON objects, one per record: a
/// `serde_json::Map` into which the four members of the record are inserted,
/// each under its own key. The text depends on the records alone.
#[verifier::external_body]
pub(crate) fn records_json(records: &Vec<FieldRecord>) -> (text: Option<String>)
    ensures
        text is Some <==> json_of_records(record_views(records@)) is Some,
        text matches Some(t) ==> json_of_records(record_views(records@)) == Some(t@),
{
    let items: Vec<serde_json::Value> = records.iter().map(
        |r| {
            let mut object = serde_json::Map::new();
            object.insert(r.id.0.clone(), serde_json::Value::from(r.id.1));
            object.insert(r.name.0.clone(), serde_json::Value::from(r.name.1.clone()));
            object.insert(r.required.0.clone(), serde_json::Value::from(r.required.1));
            object.insert(r.kind.0.clone(), serde_json::Value::from(r.kind.1.clone()));
            serde_json::Value::Object(object)
        },
    ).collect();
    serde_json::to_string(&items).ok()
}

} // verus!
