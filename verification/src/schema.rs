//! Schema fields with identifiers, built from field descriptors.
//!
//! Every field of a schema, at the top level or nested, gets one identifier.
//! An explicit identifier is kept. The others are drawn from one counter that
//! starts above the largest explicit identifier of the whole input, in the
//! order in which the traversal leaves the fields: the fields nested in a
//! field come before the field itself.

use vstd::prelude::*;
use crate::types::{IcebergField, IcebergFieldType};

verus! {

/// Why a list of field descriptors is no schema.
#[derive(Debug, Clone, Copy, PartialEq, Eq, Structural)]
pub enum SchemaBuildError {
    /// The top-level list, or the member list of a struct, is empty.
    EmptyFieldList,
    /// The counter would pass the largest identifier.
    IdOverflow,
    /// Two fields share an identifier.
    DuplicateId,
}

/// The type of a schema field.
#[derive(Debug, PartialEq, Eq)]
pub enum SchemaType {
    Boolean,
    Int,
    Long,
    Float,
    Double,
    String,
    Uuid,
    Date,
    Time,
    Timestamp,
    Timestamptz,
    TimestampNs,
    TimestamptzNs,
    Binary,
    Decimal { precision: u32, scale: u32 },
    Fixed { length: u64 },
    List { element: Box<SchemaField> },
    Mapping { key: Box<SchemaField>, value: Box<SchemaField> },
    Struct { fields: Vec<SchemaField> },
}

/// A schema field: a named, typed field with its identifier.
#[derive(Debug, PartialEq, Eq)]
pub struct SchemaField {
    pub id: i32,
    pub name: String,
    pub required: bool,
    pub field_type: SchemaType,
}

/// The identifier slots of a descriptor, in the order of the traversal: one
/// per field nested in it, `Some` where the field has an explicit identifier.
pub open spec fn slots_type(t: IcebergFieldType) -> Seq<Option<i32>>
    decreases t,
{
    match t {
        IcebergFieldType::List { element_type, .. } => slots_type(*element_type).push(None),
        IcebergFieldType::Mapping { key_type, value_type, .. } => slots_type(*key_type).push(None)
            + slots_type(*value_type).push(None),
        IcebergFieldType::Struct { fields } => slots_fields(fields@, fields@.len()),
        _ => Seq::empty(),
    }
}

/// The identifier slots of the first `n` fields of a list.
pub open spec fn slots_fields(fs: Seq<IcebergField>, n: nat) -> Seq<Option<i32>>
    decreases fs, n,
{
    if n == 0 || n > fs.len() {
        Seq::empty()
    } else {
        slots_fields(fs, (n - 1) as nat) + slots_field(fs[n - 1])
    }
}

/// The identifier slots of a named field: those of its type, then its own.
pub open spec fn slots_field(f: IcebergField) -> Seq<Option<i32>>
    decreases f,
{
    slots_type(f.field_type).push(f.field_id)
}

/// Whether a descriptor holds a struct without members.
pub open spec fn has_empty_type(t: IcebergFieldType) -> bool
    decreases t,
{
    match t {
        IcebergFieldType::List { element_type, .. } => has_empty_type(*element_type),
        IcebergFieldType::Mapping { key_type, value_type, .. } => has_empty_type(*key_type)
            || has_empty_type(*value_type),
        IcebergFieldType::Struct { fields } => fields@.len() == 0 || has_empty_fields(
            fields@,
            fields@.len(),
        ),
        _ => false,
    }
}

/// Whether one of the first `n` fields of a list holds a struct without
/// members.
pub open spec fn has_empty_fields(fs: Seq<IcebergField>, n: nat) -> bool
    decreases fs, n,
{
    if n == 0 || n > fs.len() {
        false
    } else {
        has_empty_fields(fs, (n - 1) as nat) || has_empty_type(fs[n - 1].field_type)
    }
}

/// Walks a descriptor, appends its slots and reports a struct without members.
fn collect_type_slots(t: &IcebergFieldType, slots: &mut Vec<Option<i32>>) -> (has_empty: bool)
    ensures
        final(slots)@ == old(slots)@ + slots_type(*t),
        has_empty == has_empty_type(*t),
    decreases t,
{
    match t {
        IcebergFieldType::List { element_type, .. } => {
            let e = collect_type_slots(element_type, slots);
            slots.push(None);
            proof {
                assert(slots@ =~= old(slots)@ + slots_type(*t));
            }
            e
        },
        IcebergFieldType::Mapping { key_type, value_type, .. } => {
            let k = collect_type_slots(key_type, slots);
            slots.push(None);
            let v = collect_type_slots(value_type, slots);
            slots.push(None);
            proof {
                assert(slots@ =~= old(slots)@ + slots_type(*t));
            }
            k || v
        },
        IcebergFieldType::Struct { fields } => {
            let e = collect_field_slots(fields, slots);
            fields.len() == 0 || e
        },
        _ => {
            proof {
                assert(slots@ =~= old(slots)@ + slots_type(*t));
            }
            false
        },
    }
}

/// Walks a list of named fields, appends their slots and reports a struct
/// without members.
fn collect_field_slots(fields: &Vec<IcebergField>, slots: &mut Vec<Option<i32>>) -> (has_empty:
    bool)
    ensures
        final(slots)@ == old(slots)@ + slots_fields(fields@, fields@.len()),
        has_empty == has_empty_fields(fields@, fields@.len()),
    decreases fields,
{
    let mut has_empty = false;
    let mut i: usize = 0;
    while i < fields.len()
        invariant
            i <= fields.len(),
            slots@ == old(slots)@ + slots_fields(fields@, i as nat),
            has_empty == has_empty_fields(fields@, i as nat),
        decreases fields.len() - i,
    {
        let f = &fields[i];
        let e = collect_type_slots(&f.field_type, slots);
        slots.push(f.field_id);
        has_empty = has_empty || e;
        i += 1;
        proof {
            assert(slots_field(*f) == slots_type(f.field_type).push(f.field_id));
            assert(slots@ =~= old(slots)@ + slots_fields(fields@, i as nat));
        }
    }
    has_empty
}

/// The largest explicit identifier among the slots, and 0 where there is none
/// above it.
pub open spec fn max_explicit(slots: Seq<Option<i32>>) -> int
    decreases slots.len(),
{
    if slots.len() == 0 {
        0
    } else {
        let m = max_explicit(slots.drop_last());
        match slots.last() {
            Some(x) => if x > m { x as int } else { m },
            None => m,
        }
    }
}

/// The number of slots without an explicit identifier.
pub open spec fn auto_count(slots: Seq<Option<i32>>) -> nat
    decreases slots.len(),
{
    if slots.len() == 0 {
        0
    } else {
        auto_count(slots.drop_last()) + if slots.last() is None { 1nat } else { 0nat }
    }
}

/// Whether one of the slots holds a negative explicit identifier.
pub open spec fn has_negative(slots: Seq<Option<i32>>) -> bool {
    exists|i: int| 0 <= i < slots.len() && is_negative(#[trigger] slots[i])
}

/// Whether a slot holds a negative explicit identifier.
pub open spec fn is_negative(slot: Option<i32>) -> bool {
    slot matches Some(x) && x < 0
}

/// The first identifier that the counter hands out: one above the largest
/// explicit identifier, and 1 where no explicit identifier is positive.
pub open spec fn first_auto_id(slots: Seq<Option<i32>>) -> int {
    max_explicit(slots) + 1
}

/// The identifier of slot `i`: the explicit one, or the counter's value after
/// the slots before it.
pub open spec fn assigned_id(slots: Seq<Option<i32>>, i: int) -> int {
    match slots[i] {
        Some(x) => x as int,
        None => first_auto_id(slots) + auto_count(slots.take(i)),
    }
}

/// The identifiers of all slots, in order.
pub open spec fn assigned_ids(slots: Seq<Option<i32>>) -> Seq<int> {
    Seq::new(slots.len(), |i: int| assigned_id(slots, i))
}

/// Why the slots cannot be given identifiers, if anything stands against it.
pub open spec fn id_error(slots: Seq<Option<i32>>) -> Option<SchemaBuildError> {
    if max_explicit(slots) + auto_count(slots) > i32::MAX {
        Some(SchemaBuildError::IdOverflow)
    } else if !assigned_ids(slots).no_duplicates() {
        Some(SchemaBuildError::DuplicateId)
    } else {
        None
    }
}

/// The counter never hands out more identifiers for a prefix than for the
/// whole.
pub proof fn lemma_auto_count_take(slots: Seq<Option<i32>>, i: int)
    requires
        0 <= i <= slots.len(),
    ensures
        auto_count(slots.take(i)) <= auto_count(slots),
        i < slots.len() && slots[i] is None ==> auto_count(slots.take(i)) < auto_count(slots),
    decreases slots.len(),
{
    if i < slots.len() {
        let front = slots.drop_last();
        if i < front.len() {
            lemma_auto_count_take(front, i);
            assert(front.take(i) =~= slots.take(i));
        } else {
            assert(slots.take(i) =~= front);
        }
    } else {
        assert(slots.take(i) =~= slots);
    }
}

/// No explicit identifier is above `max_explicit`.
pub proof fn lemma_max_explicit_bounds(slots: Seq<Option<i32>>, i: int)
    requires
        0 <= i < slots.len(),
    ensures
        max_explicit(slots) >= 0,
        slots[i] matches Some(x) ==> x <= max_explicit(slots),
    decreases slots.len(),
{
    let front = slots.drop_last();
    if i < front.len() {
        lemma_max_explicit_bounds(front, i);
    } else if front.len() > 0 {
        lemma_max_explicit_bounds(front, 0);
    }
}

/// Whether a list of identifiers holds one twice.
fn has_duplicate(ids: &Vec<i32>) -> (dup: bool)
    ensures
        dup == !ids@.no_duplicates(),
{
    let mut i: usize = 0;
    while i < ids.len()
        invariant
            i <= ids.len(),
            forall|a: int, b: int| 0 <= a < b < i ==> ids@[a] != ids@[b],
        decreases ids.len() - i,
    {
        let mut j: usize = 0;
        while j < i
            invariant
                j <= i < ids.len(),
                forall|a: int| 0 <= a < j ==> ids@[a] != ids@[i as int],
            decreases i - j,
        {
            if ids[j] == ids[i] {
                return true;
            }
            j += 1;
        }
        i += 1;
    }
    false
}

/// Gives every slot its identifier, or says what stands against it.
fn assign_ids(slots: &Vec<Option<i32>>) -> (r: Result<Vec<i32>, SchemaBuildError>)
    ensures
        match r {
            Ok(ids) => id_error(slots@) is None && ints_of(ids@) == assigned_ids(slots@),
            Err(e) => id_error(slots@) == Some(e),
        },
{
    let n = slots.len();
    let mut max: i32 = 0;
    let mut count: usize = 0;
    let mut i: usize = 0;
    while i < n
        invariant
            n == slots.len(),
            i <= n,
            max == max_explicit(slots@.take(i as int)),
            count == auto_count(slots@.take(i as int)),
            count <= i,
        decreases n - i,
    {
        proof {
            assert(slots@.take(i + 1).drop_last() =~= slots@.take(i as int));
            assert(slots@.take(i + 1).last() == slots@[i as int]);
        }
        match slots[i] {
            Some(x) => {
                if x > max {
                    max = x;
                }
            },
            None => {
                count += 1;
            },
        }
        i += 1;
    }
    proof {
        assert(slots@.take(n as int) =~= slots@);
        if n > 0 {
            lemma_max_explicit_bounds(slots@, 0);
        }
    }
    if count > (i32::MAX - max) as usize {
        return Err(SchemaBuildError::IdOverflow);
    }
    let mut ids: Vec<i32> = Vec::new();
    let mut drawn: usize = 0;
    let mut k: usize = 0;
    while k < n
        invariant
            n == slots.len(),
            k <= n,
            0 <= max,
            max == max_explicit(slots@),
            count == auto_count(slots@),
            max + count <= i32::MAX,
            drawn == auto_count(slots@.take(k as int)),
            ids@.len() == k,
            forall|a: int| 0 <= a < k ==> ids@[a] as int == assigned_id(slots@, a),
        decreases n - k,
    {
        proof {
            lemma_auto_count_take(slots@, k as int);
            assert(slots@.take(k + 1).drop_last() =~= slots@.take(k as int));
            assert(slots@.take(k + 1).last() == slots@[k as int]);
        }
        match slots[k] {
            Some(x) => {
                ids.push(x);
            },
            None => {
                ids.push(max + 1 + drawn as i32);
                drawn += 1;
            },
        }
        k += 1;
    }
    proof {
        assert(ints_of(ids@) =~= assigned_ids(slots@));
        lemma_ints_of_duplicates(ids@);
    }
    if has_duplicate(&ids) {
        return Err(SchemaBuildError::DuplicateId);
    }
    Ok(ids)
}

/// A list of identifiers as mathematical integers.
pub open spec fn ints_of(ids: Seq<i32>) -> Seq<int> {
    Seq::new(ids.len(), |i: int| ids[i] as int)
}

/// Identifiers are distinct as machine integers exactly when they are as
/// mathematical integers.
pub proof fn lemma_ints_of_duplicates(ids: Seq<i32>)
    ensures
        ids.no_duplicates() == ints_of(ids).no_duplicates(),
{
    if ids.no_duplicates() {
        assert forall|a: int, b: int|
            0 <= a < ints_of(ids).len() && 0 <= b < ints_of(ids).len() && a != b implies ints_of(
            ids,
        )[a] != ints_of(ids)[b] by {
            assert(ids[a] != ids[b]);
        }
    }
    if ints_of(ids).no_duplicates() {
        assert forall|a: int, b: int| 0 <= a < ids.len() && 0 <= b < ids.len() && a != b implies ids[a]
            != ids[b] by {
            assert(ints_of(ids)[a] != ints_of(ids)[b]);
        }
    }
}

/// The schema type of a descriptor that nests no field.
pub open spec fn leaf_type(t: IcebergFieldType) -> SchemaType {
    match t {
        IcebergFieldType::Boolean => SchemaType::Boolean,
        IcebergFieldType::Int => SchemaType::Int,
        IcebergFieldType::Long => SchemaType::Long,
        IcebergFieldType::Float => SchemaType::Float,
        IcebergFieldType::Double => SchemaType::Double,
        IcebergFieldType::String => SchemaType::String,
        IcebergFieldType::Uuid => SchemaType::Uuid,
        IcebergFieldType::Date => SchemaType::Date,
        IcebergFieldType::Time => SchemaType::Time,
        IcebergFieldType::Timestamp => SchemaType::Timestamp,
        IcebergFieldType::Timestamptz => SchemaType::Timestamptz,
        IcebergFieldType::TimestampNs => SchemaType::TimestampNs,
        IcebergFieldType::TimestamptzNs => SchemaType::TimestamptzNs,
        IcebergFieldType::Decimal { precision, scale } => SchemaType::Decimal { precision, scale },
        IcebergFieldType::Fixed { length } => SchemaType::Fixed { length },
        _ => SchemaType::Binary,
    }
}

/// Whether `out` is a synthetic field of a list or a map: it has the given
/// name, flag and identifier, and its type is the schema type of `t`, whose
/// slots start at `at`.
pub open spec fn synthetic_matches(
    t: IcebergFieldType,
    out: SchemaField,
    name: Seq<char>,
    required: bool,
    ids: Seq<int>,
    at: int,
) -> bool
    decreases t, 1nat,
{
    &&& out.name@ == name
    &&& out.required == required
    &&& out.id == ids[at + slots_type(t).len()]
    &&& type_matches(t, out.field_type, ids, at)
}

/// Whether `out` is the schema type of the descriptor `t`, where the slots of
/// `t` start at position `at` of `ids` and every field has the identifier of
/// its slot.
pub open spec fn type_matches(t: IcebergFieldType, out: SchemaType, ids: Seq<int>, at: int) -> bool
    decreases t, 0nat,
{
    match t {
        IcebergFieldType::List { element_type, element_required } => {
            &&& out matches SchemaType::List { element }
            &&& synthetic_matches(*element_type, *element, "element"@, element_required, ids, at)
        },
        IcebergFieldType::Mapping { key_type, value_type, value_required } => {
            &&& out matches SchemaType::Mapping { key, value }
            &&& synthetic_matches(*key_type, *key, "key"@, true, ids, at)
            &&& synthetic_matches(
                *value_type,
                *value,
                "value"@,
                value_required,
                ids,
                at + slots_type(*key_type).len() + 1,
            )
        },
        IcebergFieldType::Struct { fields } => {
            &&& out matches SchemaType::Struct { fields: members }
            &&& members@.len() == fields@.len()
            &&& fields_match(fields@, members@, ids, at, fields@.len())
        },
        _ => out == leaf_type(t),
    }
}

/// Whether the first `n` fields of `out` are the schema fields of the first
/// `n` fields of `src`, in the same order, where the slots of `src` start at
/// position `at` of `ids`.
pub open spec fn fields_match(
    src: Seq<IcebergField>,
    out: Seq<SchemaField>,
    ids: Seq<int>,
    at: int,
    n: nat,
) -> bool
    decreases src, n,
{
    if n == 0 {
        true
    } else if n > src.len() || n > out.len() {
        false
    } else {
        &&& fields_match(src, out, ids, at, (n - 1) as nat)
        &&& out[n - 1].name@ == src[n - 1].name@
        &&& out[n - 1].required == src[n - 1].required
        &&& out[n - 1].id == ids[at + slots_fields(src, (n - 1) as nat).len() + slots_type(
            src[n - 1].field_type,
        ).len()]
        &&& type_matches(
            src[n - 1].field_type,
            out[n - 1].field_type,
            ids,
            at + slots_fields(src, (n - 1) as nat).len(),
        )
    }
}

/// Whether the identifiers from position `at` on agree with the slots: where
/// a slot holds an explicit identifier, the list holds that identifier at the
/// slot's place.
pub open spec fn agrees(slots: Seq<Option<i32>>, ids: Seq<int>, at: int) -> bool {
    forall|i: int| 0 <= i < slots.len() && (#[trigger] slots[i]) is Some ==> ids[at + i] == slots[i]->0
}

/// Whether every field nested in `out` that has an explicit identifier in
/// the descriptor `t` has kept it.
pub open spec fn keeps_explicit(t: IcebergFieldType, out: SchemaType) -> bool
    decreases t, 0nat,
{
    match t {
        IcebergFieldType::List { element_type, .. } => {
            &&& out matches SchemaType::List { element }
            &&& keeps_explicit(*element_type, element.field_type)
        },
        IcebergFieldType::Mapping { key_type, value_type, .. } => {
            &&& out matches SchemaType::Mapping { key, value }
            &&& keeps_explicit(*key_type, key.field_type)
            &&& keeps_explicit(*value_type, value.field_type)
        },
        IcebergFieldType::Struct { fields } => {
            &&& out matches SchemaType::Struct { fields: members }
            &&& members_keep_explicit(fields@, members@, fields@.len())
        },
        _ => true,
    }
}

/// Whether each of the first `n` fields of `out` has the explicit identifier
/// of the named field at its place in `src`, where that field has one, and
/// likewise every field nested in them.
pub open spec fn members_keep_explicit(
    src: Seq<IcebergField>,
    out: Seq<SchemaField>,
    n: nat,
) -> bool
    decreases src, n,
{
    if n == 0 {
        true
    } else if n > src.len() || n > out.len() {
        false
    } else {
        &&& members_keep_explicit(src, out, (n - 1) as nat)
        &&& src[n - 1].field_id matches Some(x) ==> out[n - 1].id == x
        &&& keeps_explicit(src[n - 1].field_type, out[n - 1].field_type)
    }
}

/// A list that agrees with some slots agrees with every run of them.
pub proof fn lemma_agrees_part(
    whole: Seq<Option<i32>>,
    part: Seq<Option<i32>>,
    offset: int,
    ids: Seq<int>,
    at: int,
)
    requires
        agrees(whole, ids, at),
        0 <= offset,
        offset + part.len() <= whole.len(),
        forall|j: int| 0 <= j < part.len() ==> part[j] == whole[offset + j],
    ensures
        agrees(part, ids, at + offset),
{
    assert forall|j: int| 0 <= j < part.len() && (#[trigger] part[j]) is Some implies ids[at
        + offset + j] == part[j]->0 by {
        assert(whole[offset + j] is Some);
    }
}

/// The slots of the first fields of a list open the slots of more of them.
pub proof fn lemma_slots_fields_prefix(fs: Seq<IcebergField>, n: nat, m: nat)
    requires
        n <= m <= fs.len(),
    ensures
        slots_fields(fs, n).len() <= slots_fields(fs, m).len(),
        forall|j: int|
            0 <= j < slots_fields(fs, n).len() ==> slots_fields(fs, n)[j] == slots_fields(fs, m)[j],
    decreases m,
{
    if n < m {
        lemma_slots_fields_prefix(fs, n, (m - 1) as nat);
    }
}

/// Where the list agrees with the slots of a descriptor, the schema type
/// built from it keeps every explicit identifier.
pub proof fn lemma_type_keeps(t: IcebergFieldType, out: SchemaType, ids: Seq<int>, at: int)
    requires
        0 <= at,
        at + slots_type(t).len() <= ids.len(),
        type_matches(t, out, ids, at),
        agrees(slots_type(t), ids, at),
    ensures
        keeps_explicit(t, out),
    decreases t, 0nat,
{
    match t {
        IcebergFieldType::List { element_type, .. } => {
            let element = out->List_element;
            lemma_agrees_part(slots_type(t), slots_type(*element_type), 0, ids, at);
            lemma_type_keeps(*element_type, element.field_type, ids, at);
        },
        IcebergFieldType::Mapping { key_type, value_type, .. } => {
            let key = out->Mapping_key;
            let value = out->Mapping_value;
            let behind = slots_type(*key_type).len() + 1;
            lemma_agrees_part(slots_type(t), slots_type(*key_type), 0, ids, at);
            lemma_agrees_part(slots_type(t), slots_type(*value_type), behind as int, ids, at);
            lemma_type_keeps(*key_type, key.field_type, ids, at);
            lemma_type_keeps(*value_type, value.field_type, ids, at + behind);
        },
        IcebergFieldType::Struct { fields } => {
            let members = out->Struct_fields;
            lemma_members_keep(fields@, members@, ids, at, fields@.len());
        },
        _ => {},
    }
}

/// Where the list agrees with the slots of the first `n` named fields, the
/// schema fields built from it keep every explicit identifier.
pub proof fn lemma_members_keep(
    src: Seq<IcebergField>,
    out: Seq<SchemaField>,
    ids: Seq<int>,
    at: int,
    n: nat,
)
    requires
        0 <= at,
        n <= src.len(),
        n <= out.len(),
        at + slots_fields(src, n).len() <= ids.len(),
        fields_match(src, out, ids, at, n),
        agrees(slots_fields(src, n), ids, at),
    ensures
        members_keep_explicit(src, out, n),
    decreases src, n,
{
    if n > 0 {
        let k = (n - 1) as nat;
        let whole = slots_fields(src, n);
        let before = slots_fields(src, k);
        let inner = slots_type(src[n - 1].field_type);
        assert(whole == before + slots_field(src[n - 1]));
        assert(slots_field(src[n - 1]) == inner.push(src[n - 1].field_id));
        lemma_agrees_part(whole, before, 0, ids, at);
        lemma_agrees_part(whole, inner, before.len() as int, ids, at);
        lemma_members_keep(src, out, ids, at, k);
        lemma_type_keeps(src[n - 1].field_type, out[n - 1].field_type, ids, at + before.len());
        assert(whole[(before.len() + inner.len()) as int] == src[n - 1].field_id);
    }
}

/// Whether the schema fields `out` respect the named fields `src` they were
/// built from: there is one per named field, each has the explicit identifier
/// of its named field where that has one, and no two of them share an
/// identifier.
pub open spec fn members_respect(src: Seq<IcebergField>, out: Seq<SchemaField>) -> bool {
    &&& out.len() == src.len()
    &&& forall|i: int|
        0 <= i < src.len() && (#[trigger] src[i]).field_id is Some ==> out[i].id
            == src[i].field_id->0
    &&& forall|i: int, j: int|
        0 <= i < j < out.len() ==> (#[trigger] out[i]).id != (#[trigger] out[j]).id
}

/// What `members_keep_explicit` says of the field at place `i`.
pub proof fn lemma_member_keeps(src: Seq<IcebergField>, out: Seq<SchemaField>, n: nat, i: int)
    requires
        members_keep_explicit(src, out, n),
        0 <= i < n,
    ensures
        i < src.len(),
        i < out.len(),
        src[i].field_id is Some ==> out[i].id == src[i].field_id->0,
        keeps_explicit(src[i].field_type, out[i].field_type),
    decreases n,
{
    if i < n - 1 {
        lemma_member_keeps(src, out, (n - 1) as nat, i);
    }
}

/// The identifiers of the first fields of a list open the identifiers of
/// more of them.
pub proof fn lemma_field_ids_prefix(out: Seq<SchemaField>, n: nat, m: nat)
    requires
        n <= m <= out.len(),
    ensures
        field_ids(out, n).len() <= field_ids(out, m).len(),
        forall|k: int| 0 <= k < field_ids(out, n).len() ==> field_ids(out, n)[k] == field_ids(out, m)[k],
    decreases m,
{
    if n < m {
        lemma_field_ids_prefix(out, n, (m - 1) as nat);
    }
}

/// Where the identifiers of the first `n` fields and of all fields nested in
/// them are distinct, two of the `n` fields have different identifiers.
pub proof fn lemma_member_ids_differ(out: Seq<SchemaField>, n: nat, i: int, j: int)
    requires
        n <= out.len(),
        0 <= i < j < n,
        field_ids(out, n).no_duplicates(),
    ensures
        out[i].id != out[j].id,
{
    let all = field_ids(out, n);
    let upto_i = field_ids(out, (i + 1) as nat);
    let upto_j = field_ids(out, (j + 1) as nat);
    lemma_field_ids_prefix(out, (i + 1) as nat, j as nat);
    lemma_field_ids_prefix(out, (i + 1) as nat, n);
    lemma_field_ids_prefix(out, j as nat, (j + 1) as nat);
    lemma_field_ids_prefix(out, (j + 1) as nat, n);
    let pi = upto_i.len() - 1;
    let pj = upto_j.len() - 1;
    assert(upto_i[pi] == out[i].id);
    assert(upto_j[pj] == out[j].id);
    assert(all[pi] == out[i].id);
    assert(all[pj] == out[j].id);
    assert(pi < pj);
}

/// Fields that keep their explicit identifiers and whose identifiers are
/// distinct respect the named fields they were built from.
pub proof fn lemma_members_respect(src: Seq<IcebergField>, out: Seq<SchemaField>)
    requires
        out.len() == src.len(),
        members_keep_explicit(src, out, src.len()),
        field_ids(out, out.len()).no_duplicates(),
    ensures
        members_respect(src, out),
{
    assert forall|i: int| 0 <= i < src.len() && (#[trigger] src[i]).field_id is Some implies out[i].id
        == src[i].field_id->0 by {
        lemma_member_keeps(src, out, src.len(), i);
    }
    assert forall|i: int, j: int| 0 <= i < j < out.len() implies (#[trigger] out[i]).id != (
    #[trigger] out[j]).id by {
        lemma_member_ids_differ(out, out.len(), i, j);
    }
}

/// A run of a list without duplicates has no duplicates.
pub proof fn lemma_subrange_no_duplicates(ids: Seq<int>, from: int, to: int)
    requires
        0 <= from <= to <= ids.len(),
        ids.no_duplicates(),
    ensures
        ids.subrange(from, to).no_duplicates(),
{
    let run = ids.subrange(from, to);
    assert forall|a: int, b: int| 0 <= a < run.len() && 0 <= b < run.len() && a != b implies run[a]
        != run[b] by {
        assert(ids[from + a] != ids[from + b]);
    }
}

/// Builds the schema type of a descriptor, taking the identifiers of its
/// fields from `ids`, from position `at` on. Returns the type and the
/// position behind its slots.
///
/// The list of identifiers is one that respects the descriptor: it holds no
/// identifier twice, and where a field of the descriptor has an explicit
/// identifier, the list holds that identifier at the field's slot. Then every
/// field keeps its explicit identifier, and no other field nested in the
/// result repeats it.
pub fn iceberg_type_to_spec_type(t: &IcebergFieldType, ids: &Vec<i32>, at: usize) -> (r: (
    SchemaType,
    usize,
))
    requires
        at + slots_type(*t).len() <= ids.len(),
        agrees(slots_type(*t), ints_of(ids@), at as int),
        ints_of(ids@).no_duplicates(),
    ensures
        r.1 == at + slots_type(*t).len(),
        type_matches(*t, r.0, ints_of(ids@), at as int),
        keeps_explicit(*t, r.0),
        type_ids(r.0) == ints_of(ids@).subrange(at as int, r.1 as int),
        type_ids(r.0).no_duplicates(),
        *t matches IcebergFieldType::Struct { fields } ==> {
            &&& r.0 matches SchemaType::Struct { fields: members }
            &&& members_respect(fields@, members@)
        },
    decreases t,
{
    let r = match t {
        IcebergFieldType::Boolean => (SchemaType::Boolean, at),
        IcebergFieldType::Int => (SchemaType::Int, at),
        IcebergFieldType::Long => (SchemaType::Long, at),
        IcebergFieldType::Float => (SchemaType::Float, at),
        IcebergFieldType::Double => (SchemaType::Double, at),
        IcebergFieldType::String => (SchemaType::String, at),
        IcebergFieldType::Uuid => (SchemaType::Uuid, at),
        IcebergFieldType::Date => (SchemaType::Date, at),
        IcebergFieldType::Time => (SchemaType::Time, at),
        IcebergFieldType::Timestamp => (SchemaType::Timestamp, at),
        IcebergFieldType::Timestamptz => (SchemaType::Timestamptz, at),
        IcebergFieldType::TimestampNs => (SchemaType::TimestampNs, at),
        IcebergFieldType::TimestamptzNs => (SchemaType::TimestamptzNs, at),
        IcebergFieldType::Binary => (SchemaType::Binary, at),
        IcebergFieldType::Decimal { precision, scale } => (
            SchemaType::Decimal { precision: *precision, scale: *scale },
            at,
        ),
        IcebergFieldType::Fixed { length } => (SchemaType::Fixed { length: *length }, at),
        IcebergFieldType::List { element_type, element_required } => {
            proof {
                lemma_agrees_part(
                    slots_type(*t),
                    slots_type(**element_type),
                    0,
                    ints_of(ids@),
                    at as int,
                );
            }
            let (inner, pos) = iceberg_type_to_spec_type(element_type, ids, at);
            let element = SchemaField {
                id: ids[pos],
                name: "element".to_owned(),
                required: *element_required,
                field_type: inner,
            };
            (SchemaType::List { element: Box::new(element) }, pos + 1)
        },
        IcebergFieldType::Mapping { key_type, value_type, value_required } => {
            proof {
                let behind = slots_type(**key_type).len() + 1;
                lemma_agrees_part(slots_type(*t), slots_type(**key_type), 0, ints_of(ids@), at as int);
                lemma_agrees_part(
                    slots_type(*t),
                    slots_type(**value_type),
                    behind as int,
                    ints_of(ids@),
                    at as int,
                );
            }
            let (key_inner, key_pos) = iceberg_type_to_spec_type(key_type, ids, at);
            let key = SchemaField {
                id: ids[key_pos],
                name: "key".to_owned(),
                required: true,
                field_type: key_inner,
            };
            let (value_inner, value_pos) = iceberg_type_to_spec_type(value_type, ids, key_pos + 1);
            let value = SchemaField {
                id: ids[value_pos],
                name: "value".to_owned(),
                required: *value_required,
                field_type: value_inner,
            };
            (SchemaType::Mapping { key: Box::new(key), value: Box::new(value) }, value_pos + 1)
        },
        IcebergFieldType::Struct { fields } => {
            let (members, pos) = build_members(fields, ids, at);
            (SchemaType::Struct { fields: members }, pos)
        },
    };
    proof {
        lemma_type_keeps(*t, r.0, ints_of(ids@), at as int);
        lemma_type_ids(*t, r.0, ints_of(ids@), at as int);
        lemma_subrange_no_duplicates(ints_of(ids@), at as int, r.1 as int);
        if t is Struct {
            lemma_members_respect(t->Struct_fields@, r.0->Struct_fields@);
        }
    }
    r
}

/// Builds the schema fields of a list of named fields, taking their
/// identifiers from `ids`, from position `at` on. Returns the fields and the
/// position behind their slots.
fn build_members(fields: &Vec<IcebergField>, ids: &Vec<i32>, at: usize) -> (r: (
    Vec<SchemaField>,
    usize,
))
    requires
        at + slots_fields(fields@, fields@.len()).len() <= ids.len(),
        agrees(slots_fields(fields@, fields@.len()), ints_of(ids@), at as int),
        ints_of(ids@).no_duplicates(),
    ensures
        r.1 == at + slots_fields(fields@, fields@.len()).len(),
        r.0@.len() == fields@.len(),
        fields_match(fields@, r.0@, ints_of(ids@), at as int, fields@.len()),
        members_keep_explicit(fields@, r.0@, fields@.len()),
    decreases fields,
{
    let mut out: Vec<SchemaField> = Vec::new();
    let mut pos = at;
    let mut i: usize = 0;
    while i < fields.len()
        invariant
            i <= fields.len(),
            at + slots_fields(fields@, fields@.len()).len() <= ids.len(),
            agrees(slots_fields(fields@, fields@.len()), ints_of(ids@), at as int),
            ints_of(ids@).no_duplicates(),
            pos == at + slots_fields(fields@, i as nat).len(),
            out@.len() == i,
            fields_match(fields@, out@, ints_of(ids@), at as int, i as nat),
        decreases fields.len() - i,
    {
        let f = &fields[i];
        proof {
            lemma_slots_fields_prefix(fields@, (i + 1) as nat, fields@.len());
            assert(slots_fields(fields@, (i + 1) as nat) == slots_fields(fields@, i as nat)
                + slots_field(fields@[i as int]));
            assert(slots_field(*f) == slots_type(f.field_type).push(f.field_id));
            let whole = slots_fields(fields@, fields@.len());
            let next = slots_fields(fields@, (i + 1) as nat);
            let inner = slots_type(f.field_type);
            let before = slots_fields(fields@, i as nat).len();
            assert forall|j: int| 0 <= j < inner.len() implies inner[j] == whole[before + j] by {
                assert(next[before + j] == inner[j]);
            }
            lemma_agrees_part(whole, inner, before as int, ints_of(ids@), at as int);
        }
        let (inner, own) = iceberg_type_to_spec_type(&f.field_type, ids, pos);
        let ghost before = out@;
        out.push(
            SchemaField {
                id: ids[own],
                name: f.name.clone(),
                required: f.required,
                field_type: inner,
            },
        );
        proof {
            lemma_fields_match_prefix(fields@, before, out@, ints_of(ids@), at as int, i as nat);
        }
        pos = own + 1;
        i += 1;
    }
    proof {
        lemma_members_keep(fields@, out@, ints_of(ids@), at as int, fields@.len());
    }
    (out, pos)
}

/// What holds of the first `n` fields of a list still holds when the list
/// grows behind them.
pub proof fn lemma_fields_match_prefix(
    src: Seq<IcebergField>,
    before: Seq<SchemaField>,
    after: Seq<SchemaField>,
    ids: Seq<int>,
    at: int,
    n: nat,
)
    requires
        n <= before.len() <= after.len(),
        forall|i: int| 0 <= i < n ==> before[i] == after[i],
        fields_match(src, before, ids, at, n),
    ensures
        fields_match(src, after, ids, at, n),
    decreases n,
{
    if n > 0 {
        lemma_fields_match_prefix(src, before, after, ids, at, (n - 1) as nat);
    }
}

/// The identifier slots of a whole field list.
pub open spec fn schema_slots(fields: Seq<IcebergField>) -> Seq<Option<i32>> {
    slots_fields(fields, fields.len())
}

/// Why a field list is no schema, if anything stands against it: an empty
/// list comes first, then a counter that would overflow, then a shared
/// identifier.
pub open spec fn schema_error(fields: Seq<IcebergField>) -> Option<SchemaBuildError> {
    if fields.len() == 0 || has_empty_fields(fields, fields.len()) {
        Some(SchemaBuildError::EmptyFieldList)
    } else {
        id_error(schema_slots(fields))
    }
}

/// The identifiers of the fields nested in a schema type, in the order of the
/// traversal.
pub open spec fn type_ids(t: SchemaType) -> Seq<int>
    decreases t,
{
    match t {
        SchemaType::List { element } => type_ids(element.field_type).push(element.id as int),
        SchemaType::Mapping { key, value } => type_ids(key.field_type).push(key.id as int)
            + type_ids(value.field_type).push(value.id as int),
        SchemaType::Struct { fields } => field_ids(fields@, fields@.len()),
        _ => Seq::empty(),
    }
}

/// The identifiers of the first `n` fields of a list and of all fields nested
/// in them, in the order of the traversal.
pub open spec fn field_ids(fs: Seq<SchemaField>, n: nat) -> Seq<int>
    decreases fs, n,
{
    if n == 0 || n > fs.len() {
        Seq::empty()
    } else {
        field_ids(fs, (n - 1) as nat) + type_ids(fs[n - 1].field_type).push(fs[n - 1].id as int)
    }
}

/// The identifiers of a schema type are the entries of `ids` at its slots.
pub proof fn lemma_type_ids(t: IcebergFieldType, out: SchemaType, ids: Seq<int>, at: int)
    requires
        0 <= at,
        at + slots_type(t).len() <= ids.len(),
        type_matches(t, out, ids, at),
    ensures
        type_ids(out) == ids.subrange(at, at + slots_type(t).len()),
    decreases t, 0nat,
{
    match t {
        IcebergFieldType::List { element_type, .. } => {
            let element = out->List_element;
            lemma_type_ids(*element_type, element.field_type, ids, at);
            assert(type_ids(out) =~= ids.subrange(at, at + slots_type(t).len()));
        },
        IcebergFieldType::Mapping { key_type, value_type, .. } => {
            let key = out->Mapping_key;
            let value = out->Mapping_value;
            lemma_type_ids(*key_type, key.field_type, ids, at);
            lemma_type_ids(
                *value_type,
                value.field_type,
                ids,
                at + slots_type(*key_type).len() + 1,
            );
            assert(type_ids(out) =~= ids.subrange(at, at + slots_type(t).len()));
        },
        IcebergFieldType::Struct { fields } => {
            let members = out->Struct_fields;
            lemma_field_ids(fields@, members@, ids, at, fields@.len());
        },
        _ => {
            assert(type_ids(out) =~= ids.subrange(at, at + slots_type(t).len()));
        },
    }
}

/// The identifiers of schema fields are the entries of `ids` at their
/// slots.
pub proof fn lemma_field_ids(
    src: Seq<IcebergField>,
    out: Seq<SchemaField>,
    ids: Seq<int>,
    at: int,
    n: nat,
)
    requires
        0 <= at,
        n <= src.len(),
        n <= out.len(),
        at + slots_fields(src, n).len() <= ids.len(),
        fields_match(src, out, ids, at, n),
    ensures
        field_ids(out, n) == ids.subrange(at, at + slots_fields(src, n).len()),
    decreases src, n,
{
    if n > 0 {
        let k = (n - 1) as nat;
        assert(slots_fields(src, n) == slots_fields(src, k) + slots_field(src[n - 1]));
        assert(slots_field(src[n - 1]) == slots_type(src[n - 1].field_type).push(
            src[n - 1].field_id,
        ));
        lemma_field_ids(src, out, ids, at, k);
        lemma_type_ids(
            src[n - 1].field_type,
            out[n - 1].field_type,
            ids,
            at + slots_fields(src, k).len(),
        );
        assert(field_ids(out, n) =~= ids.subrange(at, at + slots_fields(src, n).len()));
    } else {
        assert(field_ids(out, n) =~= ids.subrange(at, at + slots_fields(src, n).len()));
    }
}

/// Builds the schema fields of a list of named fields, with identifiers.
///
/// The result has the shape of the input: one schema field per named field,
/// in the same order, with the same name and flag; a list has one field
/// `element`, a map a required field `key` and a field `value`. Every field
/// has the identifier of its slot: the explicit one, as it was given, or the
/// next of a counter that starts one above the largest explicit identifier
/// and at 1 at the least. No identifier occurs twice.
pub fn build_schema_fields(fields: &Vec<IcebergField>) -> (r: Result<
    Vec<SchemaField>,
    SchemaBuildError,
>)
    ensures
        match r {
            Ok(out) => {
                &&& schema_error(fields@) is None
                &&& out@.len() == fields@.len()
                &&& fields_match(
                    fields@,
                    out@,
                    assigned_ids(schema_slots(fields@)),
                    0,
                    fields@.len(),
                )
                &&& field_ids(out@, out@.len()) == assigned_ids(schema_slots(fields@))
                &&& field_ids(out@, out@.len()).no_duplicates()
                &&& members_keep_explicit(fields@, out@, fields@.len())
                &&& members_respect(fields@, out@)
            },
            Err(e) => schema_error(fields@) == Some(e),
        },
{
    let mut slots: Vec<Option<i32>> = Vec::new();
    let has_empty = collect_field_slots(fields, &mut slots);
    proof {
        assert(slots@ =~= schema_slots(fields@));
    }
    if fields.len() == 0 || has_empty {
        return Err(SchemaBuildError::EmptyFieldList);
    }
    match assign_ids(&slots) {
        Err(e) => Err(e),
        Ok(ids) => {
            proof {
                assert(ints_of(ids@).len() == ids@.len());
                assert(assigned_ids(slots@).len() == slots@.len());
                assert(agrees(slots@, assigned_ids(slots@), 0));
            }
            let (out, _) = build_members(fields, &ids, 0);
            proof {
                let all = assigned_ids(schema_slots(fields@));
                lemma_field_ids(fields@, out@, all, 0, fields@.len());
                assert(all.subrange(0, all.len() as int) =~= all);
                lemma_members_respect(fields@, out@);
            }
            Ok(out)
        },
    }
}

/// Whether no two slots hold the same explicit identifier.
pub open spec fn explicit_distinct(slots: Seq<Option<i32>>) -> bool {
    forall|i: int, j: int|
        0 <= i < j < slots.len() && slots[i] is Some && slots[j] is Some ==> slots[i] != slots[j]
}

/// An identifier that the counter hands out is above every explicit
/// identifier of the input.
pub proof fn lemma_auto_above_explicit(slots: Seq<Option<i32>>, i: int, j: int)
    requires
        0 <= i < slots.len(),
        0 <= j < slots.len(),
        slots[i] is None,
        slots[j] is Some,
    ensures
        assigned_id(slots, i) > assigned_id(slots, j),
        assigned_id(slots, j) == slots[j]->0,
{
    lemma_max_explicit_bounds(slots, j);
}

/// The counter hands out rising identifiers: of two fields without an
/// explicit identifier, the one that the traversal leaves later has the
/// larger one.
pub proof fn lemma_auto_ids_rise(slots: Seq<Option<i32>>, i: int, j: int)
    requires
        0 <= i < j < slots.len(),
        slots[i] is None,
        slots[j] is None,
    ensures
        assigned_id(slots, i) < assigned_id(slots, j),
{
    lemma_auto_count_take(slots.take(j), i);
    assert(slots.take(j).take(i) =~= slots.take(i));
}

/// Where no explicit identifier is negative, no identifier is.
pub proof fn lemma_ids_non_negative(slots: Seq<Option<i32>>, i: int)
    requires
        !has_negative(slots),
        0 <= i < slots.len(),
    ensures
        assigned_id(slots, i) >= 0,
{
    lemma_max_explicit_bounds(slots, i);
    assert(!is_negative(slots[i]));
}

/// The identifiers of a schema are distinct exactly when its explicit
/// identifiers are: the counter never collides, neither with itself nor with
/// an explicit identifier.
pub proof fn lemma_distinct_iff_explicit_distinct(slots: Seq<Option<i32>>)
    ensures
        assigned_ids(slots).no_duplicates() <==> explicit_distinct(slots),
{
    let ids = assigned_ids(slots);
    if explicit_distinct(slots) {
        assert forall|i: int, j: int| 0 <= i < ids.len() && 0 <= j < ids.len() && i != j implies ids[i]
            != ids[j] by {
            let (a, b) = if i < j { (i, j) } else { (j, i) };
            if slots[a] is None && slots[b] is None {
                lemma_auto_ids_rise(slots, a, b);
            } else if slots[a] is None {
                lemma_auto_above_explicit(slots, a, b);
            } else if slots[b] is None {
                lemma_auto_above_explicit(slots, b, a);
            }
        }
    }
    if ids.no_duplicates() {
        assert forall|i: int, j: int|
            0 <= i < j < slots.len() && slots[i] is Some && slots[j] is Some implies slots[i]
            != slots[j] by {
            assert(ids[i] != ids[j]);
        }
    }
}

/// A field list becomes a schema exactly when it and every struct in it has
/// a member, the counter stays within the identifiers, and no two explicit
/// identifiers are equal.
pub proof fn lemma_schema_accepted(fields: Seq<IcebergField>)
    ensures
        schema_error(fields) is None <==> {
            &&& fields.len() > 0
            &&& !has_empty_fields(fields, fields.len())
            &&& max_explicit(schema_slots(fields)) + auto_count(schema_slots(fields)) <= i32::MAX
            &&& explicit_distinct(schema_slots(fields))
        },
{
    lemma_distinct_iff_explicit_distinct(schema_slots(fields));
}

} // verus!
