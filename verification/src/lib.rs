//! Bridge between a host runtime and a table-format catalog client.
//!
//! The library holds the decisions of the bridge as verified functions on
//! plain values: the connection descriptor and the properties a client is
//! built from, namespace and table identifiers, the schema fields and their
//! identifiers for a list of field descriptors, the metadata cache of a table
//! handle, and the shaping of outcomes into replies.

pub mod catalog;
pub mod outside;
pub mod props;
pub mod schema;
pub mod table;
pub mod text;
pub mod types;
