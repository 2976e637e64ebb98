//! The tolerant record decoder. Venue responses are self-describing binary
//! records; a field is addressed either by a textual name or by a numeric
//! tag, and venues are inconsistent about which form a given response uses.
//! The wire format compares a named label through the numeric hash of its
//! name, so a named label carries that hash alongside the name. This module
//! holds the decoded value model, the field lookups the fetchers rely on,
//! and the trusted bridge that turns a binary message into model values.

use vstd::prelude::*;
use candid::types::value::{IDLField, IDLValue};
use candid::types::Label as IdlLabel;

verus! {

/// How a record field is addressed. A named label also carries the numeric
/// tag that the wire format compares it under, so that a lookup by tag
/// treats named and numeric fields alike, as the wire comparison does.
#[derive(Debug)]
pub enum Label {
    Named(String, u32),
    Id(u32),
}

/// A decoded value. Scalars the engine reads are typed; naturals wider than
/// 128 bits and kinds the engine never touches collapse into `Other`. A
/// float field is carried as its raw bit pattern and never computed on.
#[derive(Debug)]
pub enum Value {
    Nat(u128),
    Text(String),
    Float64Bits(u64),
    List(Vec<Value>),
    Record(Vec<Field>),
    Variant(Label, Box<Value>),
    Other,
}

/// One field of a record.
#[derive(Debug)]
pub struct Field {
    pub label: Label,
    pub value: Value,
}

/// The label answers to the numeric tag `id`, the way the wire format
/// compares labels: a named label through its hash.
pub open spec fn label_matches_id(l: Label, id: u32) -> bool {
    match l {
        Label::Named(_, h) => h == id,
        Label::Id(i) => i == id,
    }
}

/// The label answers to a selector that gives a name and one numeric alias:
/// a named label by its name, a numeric label by the alias.
pub open spec fn label_matches_name_or_id(l: Label, name: Seq<char>, id: u32) -> bool {
    match l {
        Label::Named(n, _) => n@ == name,
        Label::Id(i) => i == id,
    }
}

/// The first field whose label answers to the name-or-alias selector and
/// holds a natural, as its 128-bit value.
pub open spec fn first_nat_by_name_or_id(fields: Seq<Field>, name: Seq<char>, id: u32) -> Option<
    u128,
>
    decreases fields.len(),
{
    if fields.len() == 0 {
        None
    } else if label_matches_name_or_id(fields[0].label, name, id) && fields[0].value is Nat {
        Some(fields[0].value->Nat_0)
    } else {
        first_nat_by_name_or_id(fields.skip(1), name, id)
    }
}

/// The value of the first field whose label answers to the tag `id`,
/// whatever its kind.
pub open spec fn first_value_by_id(fields: Seq<Field>, id: u32) -> Option<Value>
    decreases fields.len(),
{
    if fields.len() == 0 {
        None
    } else if label_matches_id(fields[0].label, id) {
        Some(fields[0].value)
    } else {
        first_value_by_id(fields.skip(1), id)
    }
}

/// The first field whose label answers to one of the tags and holds text.
pub open spec fn first_text_by_ids(fields: Seq<Field>, ids: Seq<u32>) -> Option<Seq<char>>
    decreases fields.len(),
{
    if fields.len() == 0 {
        None
    } else if (exists|k: int| 0 <= k < ids.len() && label_matches_id(fields[0].label, ids[k]))
        && fields[0].value is Text {
        Some(fields[0].value->Text_0@)
    } else {
        first_text_by_ids(fields.skip(1), ids)
    }
}

/// The first field whose label answers to the tag and holds a natural,
/// skipping matching fields of another kind.
pub open spec fn first_nat_by_id(fields: Seq<Field>, id: u32) -> Option<u128>
    decreases fields.len(),
{
    if fields.len() == 0 {
        None
    } else if label_matches_id(fields[0].label, id) && fields[0].value is Nat {
        Some(fields[0].value->Nat_0)
    } else {
        first_nat_by_id(fields.skip(1), id)
    }
}

/// Finds a natural addressed by the tag `id`, skipping fields of the wrong
/// kind.
pub fn extract_nat_by_id(fields: &Vec<Field>, id: u32) -> (r: Option<u128>)
    ensures
        r == first_nat_by_id(fields@, id),
{
    proof {
        assert(fields@.skip(0) =~= fields@);
    }
    let n = fields.len();
    for i in 0..n
        invariant
            n == fields@.len(),
            first_nat_by_id(fields@, id) == first_nat_by_id(fields@.skip(i as int), id),
    {
        let f = &fields[i];
        proof {
            assert(fields@.skip(i as int)[0] == fields@[i as int]);
            assert(fields@.skip(i as int).skip(1) =~= fields@.skip(i + 1));
        }
        let matched: bool = match &f.label {
            Label::Named(_, h) => *h == id,
            Label::Id(l) => *l == id,
        };
        if matched {
            match &f.value {
                Value::Nat(v) => {
                    return Some(*v);
                },
                _ => {},
            }
        }
    }
    proof {
        assert(fields@.skip(n as int) =~= Seq::<Field>::empty());
    }
    None
}

/// The first field whose label answers to the tag and holds a float, as the
/// float's raw bit pattern.
pub open spec fn first_float_bits_by_id(fields: Seq<Field>, id: u32) -> Option<u64>
    decreases fields.len(),
{
    if fields.len() == 0 {
        None
    } else if label_matches_id(fields[0].label, id) && fields[0].value is Float64Bits {
        Some(fields[0].value->Float64Bits_0)
    } else {
        first_float_bits_by_id(fields.skip(1), id)
    }
}

/// Finds a natural addressed by name or by one numeric alias, skipping
/// fields of the wrong kind even when their label matches.
pub fn extract_nat_named_or_id(fields: &Vec<Field>, name: &String, id: u32) -> (r: Option<u128>)
    ensures
        r == first_nat_by_name_or_id(fields@, name@, id),
{
    proof {
        assert(fields@.skip(0) =~= fields@);
    }
    let n = fields.len();
    for i in 0..n
        invariant
            n == fields@.len(),
            first_nat_by_name_or_id(fields@, name@, id) == first_nat_by_name_or_id(
                fields@.skip(i as int),
                name@,
                id,
            ),
    {
        let f = &fields[i];
        proof {
            assert(fields@.skip(i as int)[0] == fields@[i as int]);
            assert(fields@.skip(i as int).skip(1) =~= fields@.skip(i + 1));
        }
        let matched: bool = match &f.label {
            Label::Named(s, _) => *s == *name,
            Label::Id(l) => *l == id,
        };
        if matched {
            match &f.value {
                Value::Nat(v) => {
                    return Some(*v);
                },
                _ => {},
            }
        }
    }
    proof {
        assert(fields@.skip(n as int) =~= Seq::<Field>::empty());
    }
    None
}

/// Finds the value addressed by the tag `id`; if that value is a natural,
/// yields it. A matching field of another kind ends the search, as the
/// lookup used on the first venue's pool listing does.
pub fn extract_nat(fields: &Vec<Field>, id: u32) -> (r: Option<u128>)
    ensures
        r == (match first_value_by_id(fields@, id) {
            Some(v) => if v is Nat {
                Some(v->Nat_0)
            } else {
                None
            },
            None => None,
        }),
{
    proof {
        assert(fields@.skip(0) =~= fields@);
    }
    let n = fields.len();
    for i in 0..n
        invariant
            n == fields@.len(),
            first_value_by_id(fields@, id) == first_value_by_id(fields@.skip(i as int), id),
    {
        let f = &fields[i];
        proof {
            assert(fields@.skip(i as int)[0] == fields@[i as int]);
            assert(fields@.skip(i as int).skip(1) =~= fields@.skip(i + 1));
        }
        let matched: bool = match &f.label {
            Label::Named(_, h) => *h == id,
            Label::Id(l) => *l == id,
        };
        if matched {
            match &f.value {
                Value::Nat(v) => {
                    return Some(*v);
                },
                _ => {
                    return None;
                },
            }
        }
    }
    proof {
        assert(fields@.skip(n as int) =~= Seq::<Field>::empty());
    }
    None
}

/// Finds text addressed by any of the given tags, skipping fields of the
/// wrong kind.
pub fn extract_text_any(fields: &Vec<Field>, ids: &Vec<u32>) -> (r: Option<String>)
    ensures
        (match (r, first_text_by_ids(fields@, ids@)) {
            (Some(s), Some(t)) => s@ == t,
            (None, None) => true,
            _ => false,
        }),
{
    proof {
        assert(fields@.skip(0) =~= fields@);
    }
    let n = fields.len();
    for i in 0..n
        invariant
            n == fields@.len(),
            first_text_by_ids(fields@, ids@) == first_text_by_ids(fields@.skip(i as int), ids@),
    {
        let f = &fields[i];
        proof {
            assert(fields@.skip(i as int)[0] == fields@[i as int]);
            assert(fields@.skip(i as int).skip(1) =~= fields@.skip(i + 1));
        }
        let mut matched: bool = false;
        let m = ids.len();
        for k in 0..m
            invariant
                m == ids@.len(),
                matched == exists|j: int|
                    0 <= j < k && label_matches_id(f.label, ids@[j]),
        {
            let hit: bool = match &f.label {
                Label::Named(_, h) => *h == ids[k],
                Label::Id(l) => *l == ids[k],
            };
            if hit {
                matched = true;
            }
        }
        if matched {
            match &f.value {
                Value::Text(s) => {
                    return Some(s.clone());
                },
                _ => {},
            }
        }
    }
    proof {
        assert(fields@.skip(n as int) =~= Seq::<Field>::empty());
    }
    None
}

/// Finds a float addressed by the tag `id`, as its raw bit pattern,
/// skipping fields of the wrong kind.
pub fn extract_float_bits(fields: &Vec<Field>, id: u32) -> (r: Option<u64>)
    ensures
        r == first_float_bits_by_id(fields@, id),
{
    proof {
        assert(fields@.skip(0) =~= fields@);
    }
    let n = fields.len();
    for i in 0..n
        invariant
            n == fields@.len(),
            first_float_bits_by_id(fields@, id) == first_float_bits_by_id(
                fields@.skip(i as int),
                id,
            ),
    {
        let f = &fields[i];
        proof {
            assert(fields@.skip(i as int)[0] == fields@[i as int]);
            assert(fields@.skip(i as int).skip(1) =~= fields@.skip(i + 1));
        }
        let matched: bool = match &f.label {
            Label::Named(_, h) => *h == id,
            Label::Id(l) => *l == id,
        };
        if matched {
            match &f.value {
                Value::Float64Bits(v) => {
                    return Some(*v);
                },
                _ => {},
            }
        }
    }
    proof {
        assert(fields@.skip(n as int) =~= Seq::<Field>::empty());
    }
    None
}

/// The payload of a success-or-failure tagged union whose tag answers to
/// the selector, or nothing when the value is no such union or carries
/// another tag.
pub open spec fn variant_payload_spec(v: Value, name: Seq<char>, id: u32) -> Option<Value> {
    match v {
        Value::Variant(l, b) => if label_matches_name_or_id(l, name, id) {
            Some(*b)
        } else {
            None
        },
        _ => None,
    }
}

/// Unwraps a tagged union whose tag answers to the selector.
pub fn variant_payload<'a>(v: &'a Value, name: &String, id: u32) -> (r: Option<&'a Value>)
    ensures
        (match (r, variant_payload_spec(*v, name@, id)) {
            (Some(p), Some(q)) => *p == q,
            (None, None) => true,
            _ => false,
        }),
{
    match v {
        Value::Variant(l, b) => {
            let matched: bool = match l {
                Label::Named(s, _) => *s == *name,
                Label::Id(i) => *i == id,
            };
            if matched {
                Some(&**b)
            } else {
                None
            }
        },
        _ => None,
    }
}

/// The record as it stands when every field is addressed by its numeric tag
/// alone: the form a venue uses when it answers without field names.
pub open spec fn tag_form(fields: Seq<Field>) -> Seq<Field> {
    fields.map_values(
        |f: Field|
            Field {
                label: match f.label {
                    Label::Named(_, h) => Label::Id(h),
                    Label::Id(i) => Label::Id(i),
                },
                value: f.value,
            },
    )
}

/// Selector-form independence: when every named label carries the numeric
/// tag of its name and the selector's alias answers to the selector's name
/// exactly — no other field's tag collides with it — then looking a natural
/// up in the record as sent with names and in the same record as sent with
/// numeric tags yields the identical result.
pub proof fn lemma_selector_form_independence(fields: Seq<Field>, name: Seq<char>, id: u32)
    requires
        forall|i: int|
            0 <= i < fields.len() ==> (match #[trigger] fields[i].label {
                Label::Named(n, h) => (n@ == name <==> h == id),
                Label::Id(_) => true,
            }),
    ensures
        first_nat_by_name_or_id(fields, name, id) == first_nat_by_name_or_id(
            tag_form(fields),
            name,
            id,
        ),
    decreases fields.len(),
{
    if fields.len() == 0 {
        assert(tag_form(fields) =~= Seq::<Field>::empty());
    } else {
        assert(tag_form(fields)[0] == Field {
            label: match fields[0].label {
                Label::Named(_, h) => Label::Id(h),
                Label::Id(i) => Label::Id(i),
            },
            value: fields[0].value,
        });
        assert(label_matches_name_or_id(fields[0].label, name, id) == label_matches_name_or_id(
            tag_form(fields)[0].label,
            name,
            id,
        ));
        assert(tag_form(fields).skip(1) =~= tag_form(fields.skip(1)));
        lemma_selector_form_independence(fields.skip(1), name, id);
    }
}

/// The record's fields, when the value is a record.
pub fn as_record<'a>(v: &'a Value) -> (r: Option<&'a Vec<Field>>)
    ensures
        (match (r, *v) {
            (Some(fs), Value::Record(gs)) => *fs == gs,
            (None, _) => !(*v is Record),
            _ => false,
        }),
{
    match v {
        Value::Record(fs) => Some(fs),
        _ => None,
    }
}

/// The first element of a list value, when there is one.
pub fn first_of_list<'a>(v: &'a Value) -> (r: Option<&'a Value>)
    ensures
        (match (r, *v) {
            (Some(e), Value::List(es)) => es.len() > 0 && *e == es[0],
            (None, Value::List(es)) => es.len() == 0,
            (None, _) => !(*v is List),
            _ => false,
        }),
{
    match v {
        Value::List(es) => {
            if es.len() > 0 {
                Some(&es[0])
            } else {
                None
            }
        },
        _ => None,
    }
}

#[verifier::external_type_specification]
#[verifier::external_body]
pub struct ExIdlLabel(IdlLabel);

#[verifier::external_type_specification]
#[verifier::external_body]
pub struct ExIdlValue(IDLValue);

#[verifier::external_type_specification]
#[verifier::external_body]
pub struct ExIdlField(IDLField);

/// Relies on candid::types::Label::get_id: the wire format compares a named
/// label through the numeric hash of its name; the converted label keeps
/// the name and that tag side by side. An unnamed tuple label is a tag.
#[verifier::external_body]
fn label_from_idl(l: &IdlLabel) -> (r: Label) {
    match l {
        IdlLabel::Named(s) => Label::Named(s.clone(), l.get_id()),
        IdlLabel::Id(i) => Label::Id(*i),
        IdlLabel::Unnamed(i) => Label::Id(*i),
    }
}

/// Relies on candid::types::value::IDLField: a field is a label and a value.
#[verifier::external_body]
fn field_from_idl(f: &IDLField) -> (r: Field) {
    Field { label: label_from_idl(&f.id), value: value_from_idl(&f.val) }
}

/// Relies on candid::types::value::IDLValue: one arm per scalar kind the
/// engine reads, moving the payload; a natural beyond 128 bits and every
/// kind the engine never touches become `Other`.
#[verifier::external_body]
fn scalar_from_idl(v: &IDLValue) -> (r: Value) {
    match v {
        IDLValue::Nat(n) => n.0.to_string().parse::<u128>().map_or(Value::Other, Value::Nat),
        IDLValue::Nat8(x) => Value::Nat(*x as u128),
        IDLValue::Nat16(x) => Value::Nat(*x as u128),
        IDLValue::Nat32(x) => Value::Nat(*x as u128),
        IDLValue::Nat64(x) => Value::Nat(*x as u128),
        IDLValue::Text(s) => Value::Text(s.clone()),
        IDLValue::Float64(x) => Value::Float64Bits(x.to_bits()),
        _ => Value::Other,
    }
}

/// Relies on candid::types::value::IDLValue: records, vectors and unions
/// convert element by element, every other kind as a scalar.
#[verifier::external_body]
fn value_from_idl(v: &IDLValue) -> (r: Value) {
    match v {
        IDLValue::Record(fs) => Value::Record(fs.iter().map(field_from_idl).collect()),
        IDLValue::Vec(vs) => Value::List(vs.iter().map(value_from_idl).collect()),
        IDLValue::Variant(w) => Value::Variant(
            label_from_idl(&w.0.id),
            Box::new(value_from_idl(&w.0.val)),
        ),
        _ => scalar_from_idl(v),
    }
}

/// What a binary message holds when it decodes at all: the model values
/// of a successful decode are a function of the bytes alone, and carry
/// this name. Whether decoding succeeds is not a function of the bytes —
/// the wire decoder also bounds its recursion by the machine's remaining
/// stack and may refuse a deeply nested message it would accept
/// elsewhere — so the failure case stays unnamed and unconstrained.
pub uninterp spec fn idl_values(raw: Seq<u8>) -> Seq<Value>;

/// Relies on candid::IDLArgs::from_bytes: a malformed message is
/// rejected, a message beyond the decoder's resource bounds may be
/// rejected too, and the values of a successful decode depend on the
/// bytes alone. Nothing is promised of when decoding fails.
#[verifier::external_body]
pub(crate) fn parse_idl_bytes(raw: &[u8]) -> (r: Option<Vec<Value>>)
    ensures
        (r matches Some(v) ==> v@ == idl_values(raw@)),
{
    match candid::IDLArgs::from_bytes(raw) {
        Ok(args) => Some(args.args.iter().map(value_from_idl).collect()),
        Err(_) => None,
    }
}

} // verus!
