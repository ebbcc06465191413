//! Field descriptors and identifiers as the host supplies them.

use vstd::prelude::*;
use crate::props::Properties;
use crate::text::{join_dotted, joined, split_dotted, split_on, texts_of};

verus! {

/// A named field: a descriptor with a name, a required flag and, where the
/// caller chose one, an explicit identifier.
#[derive(Debug)]
pub struct IcebergField {
    pub name: String,
    pub field_type: IcebergFieldType,
    pub required: bool,
    pub field_id: Option<i32>,
}

/// A field descriptor: a primitive kind, or a list, map or struct of
/// further descriptors.
#[derive(Debug)]
pub enum IcebergFieldType {
    Boolean,
    Int,
    Long,
    Float,
    Double,
    String,
    Uuid,
    Date,
    Time,
    Timestamp,
    Timestamptz,
    TimestampNs,
    TimestamptzNs,
    Binary,
    Decimal { precision: u32, scale: u32 },
    Fixed { length: u64 },
    List { element_type: Box<IcebergFieldType>, element_required: bool },
    Mapping { key_type: Box<IcebergFieldType>, value_type: Box<IcebergFieldType>, value_required: bool },
    Struct { fields: Vec<IcebergField> },
}

/// A shorter name for the descriptor.
pub type IcebergType = IcebergFieldType;

/// A namespace: an ordered list of name segments.
#[derive(Debug)]
pub struct ElixirNamespaceIdent {
    pub parts: Vec<String>,
}

/// A table identifier: a namespace and a table name.
#[derive(Debug)]
pub struct ElixirTableIdent {
    pub namespace: ElixirNamespaceIdent,
    pub name: String,
}

impl View for ElixirNamespaceIdent {
    type V = Seq<Seq<char>>;

    open spec fn view(&self) -> Seq<Seq<char>> {
        texts_of(self.parts@)
    }
}

impl ElixirNamespaceIdent {
    /// A namespace is valid when it has at least one segment.
    pub open spec fn is_valid(&self) -> bool {
        self.parts@.len() > 0
    }

    /// Whether the namespace has at least one segment.
    pub fn has_segments(&self) -> (b: bool)
        ensures
            b == self.is_valid(),
    {
        self.parts.len() > 0
    }

    /// The namespace that a dotted name stands for: the text is split at
    /// every dot, and no segment is merged or dropped. The result has at
    /// least one segment.
    pub fn from_dotted(name: &str) -> (r: Self)
        ensures
            r@ == split_on(name@, '.'),
            r.is_valid(),
    {
        ElixirNamespaceIdent { parts: split_dotted(name) }
    }

    /// The dotted name of the namespace.
    pub fn to_dotted(&self) -> (r: String)
        ensures
            r@ == joined(self@, '.'),
    {
        join_dotted(&self.parts)
    }

    /// A copy of the namespace.
    pub fn duplicate(&self) -> (r: Self)
        ensures
            r.parts@ == self.parts@,
            r@ == self@,
    {
        ElixirNamespaceIdent { parts: copy_texts(&self.parts) }
    }
}

impl ElixirTableIdent {
    /// A copy of the identifier.
    pub fn duplicate(&self) -> (r: Self)
        ensures
            r.namespace.parts@ == self.namespace.parts@,
            r.namespace@ == self.namespace@,
            r.name == self.name,
    {
        ElixirTableIdent { namespace: self.namespace.duplicate(), name: self.name.clone() }
    }
}

/// A copy of a list of strings.
fn copy_texts(parts: &Vec<String>) -> (r: Vec<String>)
    ensures
        r@ == parts@,
{
    let mut out: Vec<String> = Vec::new();
    let mut i: usize = 0;
    while i < parts.len()
        invariant
            i <= parts@.len(),
            out@ == parts@.take(i as int),
        decreases parts.len() - i,
    {
        out.push(parts[i].clone());
        proof {
            assert(out@ =~= parts@.take(i + 1));
        }
        i += 1;
    }
    proof {
        assert(parts@.take(parts@.len() as int) =~= parts@);
        assert(out@ =~= parts@);
    }
    out
}

/// The first word of a reply to the host: whether the operation succeeded.
#[derive(Debug, Clone, Copy, PartialEq, Eq, Structural)]
pub enum Status {
    Success,
    Failure,
}

/// One field of a table's current schema, as the metadata reply lists it.
#[derive(Debug)]
pub struct FieldSummary {
    pub id: i32,
    pub name: String,
    pub required: bool,
    pub type_description: String,
}

/// One object of a JSON list, member by member: each member is a key with
/// its value, a number, a text, a flag and again a text.
#[derive(Debug)]
pub struct FieldRecord {
    pub id: (String, i64),
    pub name: (String, String),
    pub required: (String, bool),
    pub kind: (String, String),
}

/// The current snapshot of a table.
#[derive(Debug, Clone, Copy, PartialEq, Eq, Structural)]
pub struct SnapshotInfo {
    pub snapshot_id: i64,
    pub sequence_number: i64,
}

/// What a loaded table tells about itself, as plain values.
#[derive(Debug)]
pub struct TableInfo {
    pub identifier: String,
    pub table_uuid: String,
    pub format_version: u8,
    pub location: String,
    pub schema_id: i32,
    pub fields: Vec<FieldSummary>,
    pub properties: Properties,
    pub current_snapshot: Option<SnapshotInfo>,
}

} // verus!
